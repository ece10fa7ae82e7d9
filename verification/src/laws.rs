//! What holds of the generated code for every declaration.

use crate::classify::{carries_lifetime, classify, names_cow, FieldKind};
use crate::decimal::{decimal, lemma_decimal_value};
use crate::declaration::{BodyView, CaseView, FieldsView, TypeDeclarationView, TypeView};
use crate::emit::{
    arm_fragments, arms, binding, body_fragments, case_path, converted, generic_list,
    impl_fragments, method_name, named_access, named_entries, params, pattern, positional_access,
    positional_entries, rebuilt, signature, ParamList,
};
use crate::fragments::separated;
use vstd::prelude::*;

verus! {

/// No field in the list is a `Cow` or of a type that takes a lifetime: each
/// is classified as moved.
pub open spec fn all_moved(fields: FieldsView) -> bool {
    match fields {
        FieldsView::Named(fields) => forall|i: int|
            0 <= i < fields.len() ==> classify((#[trigger] fields[i]).ty) == FieldKind::JustMoved,
        FieldsView::Positional(types) => forall|i: int|
            0 <= i < types.len() ==> classify(#[trigger] types[i]) == FieldKind::JustMoved,
        FieldsView::Unit => true,
    }
}

/// No field of the declared type is a `Cow` or of a type that takes a
/// lifetime.
pub open spec fn owned(decl: TypeDeclarationView) -> bool {
    match decl.body {
        BodyView::PlainStructure(fields) => all_moved(fields),
        BodyView::TaggedUnion(cases) => forall|i: int|
            0 <= i < cases.len() ==> all_moved((#[trigger] cases[i]).fields),
    }
}

/// The constructor that gives every field its old value: a named field
/// stands as `name : access`, a positional field as its access alone.
pub open spec fn moved(fields: FieldsView, bound: bool) -> Seq<Seq<char>> {
    match fields {
        FieldsView::Named(fields) => seq!["{"@] + separated(
            Seq::new(
                fields.len(),
                |i: int| seq![fields[i].ident, ":"@] + named_access(fields[i].ident, bound),
            ),
            ","@,
        ) + seq!["}"@],
        FieldsView::Positional(types) => seq!["("@] + separated(
            Seq::new(types.len(), |i: int| positional_access(i as nat, bound)),
            ","@,
        ) + seq![")"@],
        FieldsView::Unit => Seq::empty(),
    }
}

/// The arm that takes a case apart and puts it together again from the very
/// same values.
pub open spec fn moved_arm(name: Seq<char>, case: CaseView) -> Seq<Seq<char>> {
    case_path(name, case.ident) + pattern(case.fields) + seq!["=>"@] + case_path(name, case.ident)
        + moved(case.fields, true)
}

/// Every type is classified as exactly one of `PlainCow`, `AssumedCow` and
/// `JustMoved`, by the first rule that applies: a path that names `Cow` is
/// `PlainCow` whatever its arguments; any other path whose last segment
/// takes a lifetime is `AssumedCow`; everything else is `JustMoved`, and so
/// is a qualified path. No type is classified as `RecursiveOption`.
pub proof fn law_classification(ty: TypeView)
    ensures
        !(classify(ty) is RecursiveOption),
        classify(ty) == FieldKind::PlainCow <==> (ty matches TypeView::Path { qualified, segments }
            && !qualified && names_cow(segments)),
        classify(ty) == FieldKind::AssumedCow <==> (ty matches TypeView::Path {
            qualified,
            segments,
        } && !qualified && !names_cow(segments) && carries_lifetime(segments)),
{
}

/// Where no field is converted, the constructor gives every field its old
/// value.
pub proof fn lemma_moved(fields: FieldsView, bound: bool)
    requires
        all_moved(fields),
    ensures
        rebuilt(fields, bound) == moved(fields, bound),
{
    match fields {
        FieldsView::Named(named) => {
            assert(named_entries(named, bound) =~= Seq::new(
                named.len(),
                |i: int| seq![named[i].ident, ":"@] + named_access(named[i].ident, bound),
            ));
        },
        FieldsView::Positional(types) => {
            assert(positional_entries(types, bound) =~= Seq::new(
                types.len(),
                |i: int| positional_access(i as nat, bound),
            ));
        },
        FieldsView::Unit => {},
    }
}

/// A structure none of whose fields is a `Cow` or of a type that takes a
/// lifetime is rebuilt as it is: the body of the generated method is the
/// name of the structure and a constructor in which every field is read
/// from `self` and moved.
pub proof fn law_plain_structure_is_rebuilt_as_it_is(decl: TypeDeclarationView)
    requires
        decl.body matches BodyView::PlainStructure(fields) && all_moved(fields),
    ensures
        decl.body matches BodyView::PlainStructure(fields) && body_fragments(decl) == seq![
            decl.ident,
        ] + moved(fields, false),
{
    match decl.body {
        BodyView::PlainStructure(fields) => {
            lemma_moved(fields, false);
        },
        BodyView::TaggedUnion(_) => {},
    }
}

/// The new value of a field that is classified as `PlainCow` is the call of
/// the conversion method on the field, wrapped in `::std::borrow::Cow::Owned`.
pub proof fn law_plain_cow_is_converted_and_wrapped(ty: TypeView, access: Seq<Seq<char>>)
    requires
        classify(ty) == FieldKind::PlainCow,
    ensures
        converted(classify(ty), access) == seq![
            "::"@,
            "std"@,
            "::"@,
            "borrow"@,
            "::"@,
            "Cow"@,
            "::"@,
            "Owned"@,
            "("@,
        ] + converted(FieldKind::AssumedCow, access) + seq![")"@],
        converted(classify(ty), access) == seq![
            "::"@,
            "std"@,
            "::"@,
            "borrow"@,
            "::"@,
            "Cow"@,
            "::"@,
            "Owned"@,
            "("@,
        ] + access + seq!["."@, "into_owned"@, "("@, ")"@, ")"@],
{
    assert(converted(classify(ty), access) =~= seq![
        "::"@,
        "std"@,
        "::"@,
        "borrow"@,
        "::"@,
        "Cow"@,
        "::"@,
        "Owned"@,
        "("@,
    ] + access + seq!["."@, "into_owned"@, "("@, ")"@, ")"@]);
}

/// The new value of a field that is classified as `AssumedCow` is a call,
/// on the field itself and without arguments, of the method that is being
/// generated: the name that is called is the name in the signature.
pub proof fn law_assumed_cow_calls_the_generated_method(
    decl: TypeDeclarationView,
    ty: TypeView,
    access: Seq<Seq<char>>,
)
    requires
        classify(ty) == FieldKind::AssumedCow,
    ensures
        converted(classify(ty), access) == access + seq!["."@, signature(decl)[2], "("@, ")"@],
        signature(decl)[1] == "fn"@,
        signature(decl)[2] == method_name(),
{
}

/// The `match` over a tagged union has one arm for each case, in the order
/// of the declaration, and nothing else: the arm at a given place is the arm
/// of the case at that place, and its pattern begins with the path of that
/// case, so that no arm catches what is left.
pub proof fn law_one_arm_for_each_case(decl: TypeDeclarationView)
    requires
        decl.body is TaggedUnion,
    ensures
        decl.body matches BodyView::TaggedUnion(cases) && {
            let all = arms(decl.ident, cases);
            &&& body_fragments(decl) == seq!["match"@, "self"@, "{"@] + separated(all, ","@)
                + seq!["}"@]
            &&& all.len() == cases.len()
            &&& forall|i: int|
                0 <= i < cases.len() ==> {
                    &&& #[trigger] all[i] == arm_fragments(decl.ident, cases[i])
                    &&& all[i].take(3) == case_path(decl.ident, cases[i].ident)
                }
        },
{
    match decl.body {
        BodyView::TaggedUnion(cases) => {
            let all = arms(decl.ident, cases);
            assert forall|i: int| 0 <= i < cases.len() implies {
                &&& #[trigger] all[i] == arm_fragments(decl.ident, cases[i])
                &&& all[i].take(3) == case_path(decl.ident, cases[i].ident)
            } by {
                assert(all[i].take(3) =~= case_path(decl.ident, cases[i].ident));
            }
        },
        BodyView::PlainStructure(_) => {},
    }
}

/// Where no field of the declared type is a `Cow` or of a type that takes a
/// lifetime, the generated method puts the value together again from the
/// very values that it held: a structure from the fields of `self`, a case
/// of a tagged union from the bindings of its pattern. For a case with
/// positional fields, what stands behind the arrow reads as the pattern
/// itself.
pub proof fn law_owned_value_is_rebuilt_unchanged(decl: TypeDeclarationView)
    requires
        owned(decl),
    ensures
        decl.body matches BodyView::PlainStructure(fields) ==> body_fragments(decl) == seq![
            decl.ident,
        ] + moved(fields, false),
        decl.body matches BodyView::TaggedUnion(cases) ==> {
            &&& body_fragments(decl) == seq!["match"@, "self"@, "{"@] + separated(
                Seq::new(cases.len(), |i: int| moved_arm(decl.ident, cases[i])),
                ","@,
            ) + seq!["}"@]
            &&& forall|i: int|
                0 <= i < cases.len() && !((#[trigger] cases[i]).fields is Named) ==> moved(
                    cases[i].fields,
                    true,
                ) == pattern(cases[i].fields)
        },
{
    match decl.body {
        BodyView::PlainStructure(fields) => {
            lemma_moved(fields, false);
        },
        BodyView::TaggedUnion(cases) => {
            assert forall|i: int| 0 <= i < cases.len() implies #[trigger] arm_fragments(
                decl.ident,
                cases[i],
            ) == moved_arm(decl.ident, cases[i]) by {
                lemma_moved(cases[i].fields, true);
            }
            assert(arms(decl.ident, cases) =~= Seq::new(
                cases.len(),
                |i: int| moved_arm(decl.ident, cases[i]),
            ));
            assert forall|i: int|
                0 <= i < cases.len() && !((#[trigger] cases[i]).fields is Named) implies moved(
                cases[i].fields,
                true,
            ) == pattern(cases[i].fields) by {
                match cases[i].fields {
                    FieldsView::Positional(types) => {
                        assert(Seq::new(types.len(), |k: int| positional_access(k as nat, true))
                            =~= Seq::new(types.len(), |k: int| seq![binding(k as nat)]));
                    },
                    _ => {},
                }
            }
        },
    }
}

/// A declaration without generic parameters gives an `impl` block without
/// angle brackets: the name of the type stands alone after `impl`, before
/// the body of the block, and as the type that the method returns.
pub proof fn law_no_parameters_no_brackets(decl: TypeDeclarationView)
    requires
        decl.lifetimes.len() == 0,
        decl.type_params.len() == 0,
    ensures
        impl_fragments(decl) == seq![
            "impl"@,
            decl.ident,
            "{"@,
            "pub"@,
            "fn"@,
            "into_owned"@,
            "("@,
            "self"@,
            ")"@,
            "->"@,
            decl.ident,
            "{"@,
        ] + body_fragments(decl) + seq!["}"@, "}"@],
{
    assert(params(decl, ParamList::Declared).len() == 0);
    assert(params(decl, ParamList::Named).len() == 0);
    assert(params(decl, ParamList::Owned).len() == 0);
    assert(impl_fragments(decl) =~= seq![
        "impl"@,
        decl.ident,
        "{"@,
        "pub"@,
        "fn"@,
        "into_owned"@,
        "("@,
        "self"@,
        ")"@,
        "->"@,
        decl.ident,
        "{"@,
    ] + body_fragments(decl) + seq!["}"@, "}"@]);
}

/// With generic parameters, each of the three lists holds one member for
/// each parameter, the lifetimes first: after `impl` every parameter as it
/// was declared; after the type that is converted the lifetimes as declared
/// and the names of the type parameters; after the type that is returned
/// `'static` for every lifetime and the names of the type parameters.
pub proof fn law_parameter_lists(decl: TypeDeclarationView, list: ParamList)
    ensures
        params(decl, list).len() == decl.lifetimes.len() + decl.type_params.len(),
        forall|i: int|
            0 <= i < decl.lifetimes.len() ==> #[trigger] params(decl, list)[i] == if list
                is Owned {
                "'static"@
            } else {
                decl.lifetimes[i]
            },
        forall|j: int|
            0 <= j < decl.type_params.len() ==> #[trigger] params(decl, list)[decl.lifetimes.len()
                + j] == if list is Declared {
                decl.type_params[j].declaration
            } else {
                decl.type_params[j].ident
            },
        params(decl, list).len() > 0 ==> generic_list(params(decl, list)).first() == "<"@
            && generic_list(params(decl, list)).last() == ">"@,
{
}

/// Two positional fields never share a name: neither the numerals by which
/// they are read from `self` nor the names that a pattern gives them are the
/// same for two different positions.
pub proof fn law_positions_have_names_of_their_own(i: nat, j: nat)
    requires
        i != j,
    ensures
        decimal(i) != decimal(j),
        binding(i) != binding(j),
{
    lemma_decimal_value(i);
    lemma_decimal_value(j);
    let x = "x"@;
    assert(binding(i).subrange(x.len() as int, binding(i).len() as int) =~= decimal(i));
    assert(binding(j).subrange(x.len() as int, binding(j).len() as int) =~= decimal(j));
}

} // verus!
