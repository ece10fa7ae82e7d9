//! The declaration of a data type, as far as the synthesis reads it.
//!
//! Each executable type has a view that holds the same data by mathematical
//! values: texts are `Seq<char>`, lists are `Seq`.

use vstd::prelude::*;

verus! {

/// What follows the name of a path segment.
#[derive(Debug, Clone, PartialEq, Eq)]
pub enum PathParameters {
    /// `<'a, T>`, or nothing at all; `lifetimes` counts the lifetime
    /// arguments.
    AngleBracketed { lifetimes: usize },
    /// `(A, B) -> C`.
    Parenthesized,
}

/// One segment of a type path: `borrow` in `std::borrow::Cow`, or
/// `Cow<'a, str>`.
#[derive(Debug, Clone, PartialEq, Eq)]
pub struct PathSegment {
    pub ident: String,
    pub parameters: PathParameters,
}

/// The declared type of a field.
#[derive(Debug, Clone, PartialEq, Eq)]
pub enum Type {
    /// A path such as `Vec<T>` or `std::borrow::Cow<'a, str>`. `qualified`
    /// is set for a path of the form `<T as Trait>::Name`.
    Path { qualified: bool, segments: Vec<PathSegment> },
    /// Any other type: a reference, a tuple, a slice, ...
    Other,
}

/// A field with a name.
#[derive(Debug, Clone, PartialEq, Eq)]
pub struct Field {
    pub ident: String,
    pub ty: Type,
}

/// The fields of a structure or of one case of a tagged union.
#[derive(Debug, Clone, PartialEq, Eq)]
pub enum Fields {
    /// `{ a: A, b: B }`
    Named(Vec<Field>),
    /// `(A, B)`: the fields are known by their position.
    Positional(Vec<Type>),
    /// No fields, and no brackets.
    Unit,
}

/// One case of a tagged union.
#[derive(Debug, Clone, PartialEq, Eq)]
pub struct Case {
    pub ident: String,
    pub fields: Fields,
}

/// What a declaration declares.
#[derive(Debug, Clone, PartialEq, Eq)]
pub enum Body {
    /// A `struct`.
    PlainStructure(Fields),
    /// An `enum`, with its cases in the order of the declaration.
    TaggedUnion(Vec<Case>),
}

/// A lifetime parameter, by the text of its declaration: `'a`, or `'a : 'b`.
#[derive(Debug, Clone, PartialEq, Eq)]
pub struct LifetimeParam {
    pub declaration: String,
}

/// A type parameter: its name, and the text of its declaration with bounds
/// and default, such as `T : Clone`.
#[derive(Debug, Clone, PartialEq, Eq)]
pub struct TypeParam {
    pub ident: String,
    pub declaration: String,
}

/// The declaration of a struct or an enum.
#[derive(Debug, Clone, PartialEq, Eq)]
pub struct TypeDeclaration {
    pub ident: String,
    pub lifetimes: Vec<LifetimeParam>,
    pub type_params: Vec<TypeParam>,
    pub body: Body,
}

/// View of a [`PathSegment`].
pub struct PathSegmentView {
    pub ident: Seq<char>,
    pub parameters: PathParameters,
}

/// View of a [`Type`].
pub enum TypeView {
    Path { qualified: bool, segments: Seq<PathSegmentView> },
    Other,
}

/// View of a [`Field`].
pub struct FieldView {
    pub ident: Seq<char>,
    pub ty: TypeView,
}

/// View of [`Fields`].
pub enum FieldsView {
    Named(Seq<FieldView>),
    Positional(Seq<TypeView>),
    Unit,
}

/// View of a [`Case`].
pub struct CaseView {
    pub ident: Seq<char>,
    pub fields: FieldsView,
}

/// View of a [`Body`].
pub enum BodyView {
    PlainStructure(FieldsView),
    TaggedUnion(Seq<CaseView>),
}

/// View of a [`TypeParam`].
pub struct TypeParamView {
    pub ident: Seq<char>,
    pub declaration: Seq<char>,
}

/// View of a [`TypeDeclaration`]; a lifetime parameter is the text of its
/// declaration.
pub struct TypeDeclarationView {
    pub ident: Seq<char>,
    pub lifetimes: Seq<Seq<char>>,
    pub type_params: Seq<TypeParamView>,
    pub body: BodyView,
}

impl View for PathSegment {
    type V = PathSegmentView;

    open spec fn view(&self) -> PathSegmentView {
        PathSegmentView { ident: self.ident@, parameters: self.parameters }
    }
}

impl View for Type {
    type V = TypeView;

    open spec fn view(&self) -> TypeView {
        match *self {
            Type::Path { qualified, segments } => TypeView::Path {
                qualified,
                segments: segments@.map_values(|s: PathSegment| s@),
            },
            Type::Other => TypeView::Other,
        }
    }
}

impl View for Field {
    type V = FieldView;

    open spec fn view(&self) -> FieldView {
        FieldView { ident: self.ident@, ty: self.ty@ }
    }
}

impl View for Fields {
    type V = FieldsView;

    open spec fn view(&self) -> FieldsView {
        match *self {
            Fields::Named(fields) => FieldsView::Named(fields@.map_values(|f: Field| f@)),
            Fields::Positional(types) => FieldsView::Positional(
                types@.map_values(|t: Type| t@),
            ),
            Fields::Unit => FieldsView::Unit,
        }
    }
}

impl View for Case {
    type V = CaseView;

    open spec fn view(&self) -> CaseView {
        CaseView { ident: self.ident@, fields: self.fields@ }
    }
}

impl View for Body {
    type V = BodyView;

    open spec fn view(&self) -> BodyView {
        match *self {
            Body::PlainStructure(fields) => BodyView::PlainStructure(fields@),
            Body::TaggedUnion(cases) => BodyView::TaggedUnion(cases@.map_values(|c: Case| c@)),
        }
    }
}

impl View for LifetimeParam {
    type V = Seq<char>;

    open spec fn view(&self) -> Seq<char> {
        self.declaration@
    }
}

impl View for TypeParam {
    type V = TypeParamView;

    open spec fn view(&self) -> TypeParamView {
        TypeParamView { ident: self.ident@, declaration: self.declaration@ }
    }
}

impl View for TypeDeclaration {
    type V = TypeDeclarationView;

    open spec fn view(&self) -> TypeDeclarationView {
        TypeDeclarationView {
            ident: self.ident@,
            lifetimes: self.lifetimes@.map_values(|l: LifetimeParam| l@),
            type_params: self.type_params@.map_values(|p: TypeParam| p@),
            body: self.body@,
        }
    }
}

} // verus!
