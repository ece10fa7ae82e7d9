//! Synthesis of an `into_owned` method for a borrowed data type.
//!
//! A [`declaration::TypeDeclaration`] describes a struct or an enum by its
//! name, its generic parameters and the types of its fields. From it,
//! [`emit::impl_into_owned`] writes an inherent `impl` block whose single
//! method, `into_owned`, rebuilds the value with every lifetime parameter
//! replaced by `'static`: each field is either moved as it is or converted
//! by a call of `into_owned`, as its declared type asks for.
//!
//! The generated code is a sequence of fragments (tokens); the text is that
//! sequence joined by single spaces. Every contract speaks of the fragments.

pub mod classify;
pub mod decimal;
pub mod declaration;
pub mod emit;
pub mod fragments;
pub mod laws;
pub mod tokens;


pub use classify::{is_cow, is_cow_alike, FieldKind};
pub use declaration::{
    Body, Case, Field, Fields, LifetimeParam, PathParameters, PathSegment, Type, TypeDeclaration,
    TypeParam,
};
pub use emit::{ctor_fields, impl_into_owned, match_arm};
