//! How a field is to be carried over, decided from its declared type alone.

use crate::declaration::{PathParameters, PathSegment, PathSegmentView, Type, TypeView};
use vstd::prelude::*;
use vstd::string::StringExecFns;

verus! {

/// What the generated method does with a field.
#[derive(Debug, PartialEq, Eq)]
pub enum FieldKind {
    /// The field is a `Cow`: it is converted and wrapped in `Cow::Owned`.
    PlainCow,
    /// The type takes a lifetime argument and is taken to have an
    /// `into_owned` of its own, which is called.
    AssumedCow,
    /// An optional borrowed field. No type is classified so, and no code is
    /// written for it.
    RecursiveOption(Box<FieldKind>),
    /// The field is moved as it is.
    JustMoved,
}

/// The names of the segments of a path, in order.
pub open spec fn segment_idents(segments: Seq<PathSegmentView>) -> Seq<Seq<char>> {
    segments.map_values(|s: PathSegmentView| s.ident)
}

/// The path is one of the three spellings of the copy-on-write type:
/// `std::borrow::Cow`, `borrow::Cow` or `Cow`.
pub open spec fn names_cow(segments: Seq<PathSegmentView>) -> bool {
    let idents = segment_idents(segments);
    ||| idents =~= seq!["std"@, "borrow"@, "Cow"@]
    ||| idents =~= seq!["borrow"@, "Cow"@]
    ||| idents =~= seq!["Cow"@]
}

/// The last segment of the path has angle brackets with at least one
/// lifetime in them.
pub open spec fn carries_lifetime(segments: Seq<PathSegmentView>) -> bool {
    &&& segments.len() > 0
    &&& segments.last().parameters matches PathParameters::AngleBracketed { lifetimes }
    &&& lifetimes > 0
}

/// The kind of a field of the given type: the first of the three rules that
/// applies.
pub open spec fn classify(ty: TypeView) -> FieldKind {
    match ty {
        TypeView::Path { qualified, segments } => {
            if qualified {
                FieldKind::JustMoved
            } else if names_cow(segments) {
                FieldKind::PlainCow
            } else if carries_lifetime(segments) {
                FieldKind::AssumedCow
            } else {
                FieldKind::JustMoved
            }
        },
        TypeView::Other => FieldKind::JustMoved,
    }
}

/// The views of the segments of a path.
pub open spec fn segment_views(segments: Seq<PathSegment>) -> Seq<PathSegmentView> {
    segments.map_values(|s: PathSegment| s@)
}

/// Whether `text` reads exactly as `expected`.
fn reads(text: &String, expected: &str) -> (same: bool)
    ensures
        same == (text@ == expected@),
{
    let expected = String::from_str(expected);
    *text == expected
}

/// Whether the path names the copy-on-write type.
pub fn is_cow(segments: &Vec<PathSegment>) -> (cow: bool)
    ensures
        cow == names_cow(segment_views(segments@)),
{
    let ghost idents = segment_idents(segment_views(segments@));
    if segments.len() == 3 {
        assert(idents[0] == segments@[0].ident@);
        assert(idents[1] == segments@[1].ident@);
        assert(idents[2] == segments@[2].ident@);
        reads(&segments[0].ident, "std") && reads(&segments[1].ident, "borrow") && reads(
            &segments[2].ident,
            "Cow",
        )
    } else if segments.len() == 2 {
        assert(idents[0] == segments@[0].ident@);
        assert(idents[1] == segments@[1].ident@);
        reads(&segments[0].ident, "borrow") && reads(&segments[1].ident, "Cow")
    } else if segments.len() == 1 {
        assert(idents[0] == segments@[0].ident@);
        reads(&segments[0].ident, "Cow")
    } else {
        false
    }
}

/// Whether the path ends in a segment that takes a lifetime argument.
pub fn is_cow_alike(segments: &Vec<PathSegment>) -> (alike: bool)
    ensures
        alike == carries_lifetime(segment_views(segments@)),
{
    let n = segments.len();
    if n == 0 {
        false
    } else {
        match segments[n - 1].parameters {
            PathParameters::AngleBracketed { lifetimes } => lifetimes > 0,
            PathParameters::Parenthesized => false,
        }
    }
}

impl FieldKind {
    /// Classifies a field by its declared type.
    pub fn resolve(ty: &Type) -> (kind: FieldKind)
        ensures
            kind == classify(ty@),
            !(kind is RecursiveOption),
    {
        match ty {
            Type::Path { qualified, segments } => {
                if *qualified {
                    FieldKind::JustMoved
                } else if is_cow(segments) {
                    FieldKind::PlainCow
                } else if is_cow_alike(segments) {
                    FieldKind::AssumedCow
                } else {
                    FieldKind::JustMoved
                }
            },
            Type::Other => FieldKind::JustMoved,
        }
    }
}

} // verus!
