//! The generated code: what is written for a field, for a list of fields,
//! for one case of a tagged union, and for the whole `impl` block.

use crate::classify::{classify, FieldKind};
use crate::decimal::{decimal, decimal_text};
use crate::declaration::{
    Body, BodyView, Case, CaseView, Field, FieldView, Fields, FieldsView, Type, TypeDeclaration,
    TypeDeclarationView, TypeParamView, TypeView,
};
use crate::fragments::{lemma_render_splice, lemma_separated_push, render, separated};
use crate::tokens::Writer;
use vstd::prelude::*;
use vstd::string::StringExecFns;

verus! {

/// The name of the generated method. The generated code calls a method of
/// the same name on each field that it converts.
pub open spec fn method_name() -> Seq<char> {
    "into_owned"@
}

/// A call of the conversion method on `access`.
pub open spec fn call_into_owned(access: Seq<Seq<char>>) -> Seq<Seq<char>> {
    access + seq!["."@, method_name(), "("@, ")"@]
}

/// `inner` wrapped in the owned variant of the copy-on-write type.
pub open spec fn wrap_owned(inner: Seq<Seq<char>>) -> Seq<Seq<char>> {
    seq!["::"@, "std"@, "::"@, "borrow"@, "::"@, "Cow"@, "::"@, "Owned"@, "("@] + inner + seq![
        ")"@,
    ]
}

/// The expression that gives the new value of a field of the given kind,
/// where `access` reads the old value. Nothing is written for
/// `RecursiveOption`.
pub open spec fn converted(kind: FieldKind, access: Seq<Seq<char>>) -> Seq<Seq<char>> {
    match kind {
        FieldKind::PlainCow => wrap_owned(call_into_owned(access)),
        FieldKind::AssumedCow => call_into_owned(access),
        FieldKind::RecursiveOption(_) => Seq::empty(),
        FieldKind::JustMoved => access,
    }
}

/// The name that a pattern gives to the positional field `index`.
pub open spec fn binding(index: nat) -> Seq<char> {
    "x"@ + decimal(index)
}

/// How the old value of the field `name` is read: by its binding in a
/// pattern, or else as a field of `self`.
pub open spec fn named_access(name: Seq<char>, bound: bool) -> Seq<Seq<char>> {
    if bound {
        seq![name]
    } else {
        seq!["self"@, "."@, name]
    }
}

/// How the old value of the positional field `index` is read: by its binding
/// in a pattern, or else as a field of `self`.
pub open spec fn positional_access(index: nat, bound: bool) -> Seq<Seq<char>> {
    if bound {
        seq![binding(index)]
    } else {
        seq!["self"@, "."@, decimal(index)]
    }
}

/// A named field in a constructor: its name, a colon and its new value.
pub open spec fn named_entry(field: FieldView, bound: bool) -> Seq<Seq<char>> {
    seq![field.ident, ":"@] + converted(classify(field.ty), named_access(field.ident, bound))
}

/// The entries of a constructor with named fields.
pub open spec fn named_entries(fields: Seq<FieldView>, bound: bool) -> Seq<Seq<Seq<char>>> {
    Seq::new(fields.len(), |i: int| named_entry(fields[i], bound))
}

/// The entries of a constructor with positional fields: the new value of
/// each.
pub open spec fn positional_entries(types: Seq<TypeView>, bound: bool) -> Seq<Seq<Seq<char>>> {
    Seq::new(
        types.len(),
        |i: int| converted(classify(types[i]), positional_access(i as nat, bound)),
    )
}

/// What follows the path of a structure or of a case in the expression that
/// rebuilds it: the entries in braces or in round brackets, or nothing where
/// there are no fields. The old values are read from the bindings of a
/// pattern if `bound` is set, and from `self` if not.
pub open spec fn rebuilt(fields: FieldsView, bound: bool) -> Seq<Seq<char>> {
    match fields {
        FieldsView::Named(fields) => seq!["{"@] + separated(named_entries(fields, bound), ","@)
            + seq!["}"@],
        FieldsView::Positional(types) => seq!["("@] + separated(
            positional_entries(types, bound),
            ","@,
        ) + seq![")"@],
        FieldsView::Unit => Seq::empty(),
    }
}

/// What follows the name of a structure in the expression that rebuilds it
/// from `self`.
pub open spec fn ctor_fragments(fields: FieldsView) -> Seq<Seq<char>> {
    rebuilt(fields, false)
}

/// The names that a pattern binds, one for each field.
pub open spec fn bindings(fields: FieldsView) -> Seq<Seq<Seq<char>>> {
    match fields {
        FieldsView::Named(fields) => Seq::new(fields.len(), |i: int| seq![fields[i].ident]),
        FieldsView::Positional(types) => Seq::new(types.len(), |i: int| seq![binding(i as nat)]),
        FieldsView::Unit => Seq::empty(),
    }
}

/// What follows the path of a case in the pattern that takes its fields
/// apart.
pub open spec fn pattern(fields: FieldsView) -> Seq<Seq<char>> {
    match fields {
        FieldsView::Named(_) => seq!["{"@] + separated(bindings(fields), ","@) + seq!["}"@],
        FieldsView::Positional(_) => seq!["("@] + separated(bindings(fields), ","@) + seq![")"@],
        FieldsView::Unit => Seq::empty(),
    }
}

/// The path of a case of the type `name`.
pub open spec fn case_path(name: Seq<char>, case: Seq<char>) -> Seq<Seq<char>> {
    seq![name, "::"@, case]
}

/// The arm of the `match` for one case: the pattern that takes the case
/// apart, an arrow, and the expression that rebuilds it from the bindings.
pub open spec fn arm_fragments(name: Seq<char>, case: CaseView) -> Seq<Seq<char>> {
    case_path(name, case.ident) + pattern(case.fields) + seq!["=>"@] + case_path(
        name,
        case.ident,
    ) + rebuilt(case.fields, true)
}

/// The arms of the `match` over a tagged union: one for each case, in the
/// order of the declaration.
pub open spec fn arms(name: Seq<char>, cases: Seq<CaseView>) -> Seq<Seq<Seq<char>>> {
    Seq::new(cases.len(), |i: int| arm_fragments(name, cases[i]))
}

/// The body of the generated method.
pub open spec fn body_fragments(decl: TypeDeclarationView) -> Seq<Seq<char>> {
    match decl.body {
        BodyView::PlainStructure(fields) => seq![decl.ident] + ctor_fragments(fields),
        BodyView::TaggedUnion(cases) => seq!["match"@, "self"@, "{"@] + separated(
            arms(decl.ident, cases),
            ","@,
        ) + seq!["}"@],
    }
}

/// The three lists of generic parameters of the generated `impl` block.
#[derive(Debug, Clone, Copy, PartialEq, Eq)]
pub enum ParamList {
    /// After `impl`: every parameter as it was declared.
    Declared,
    /// After the name of the type that is converted: every parameter by its
    /// name.
    Named,
    /// After the name of the type that is returned: `'static` for every
    /// lifetime, every type parameter by its name.
    Owned,
}

/// A lifetime parameter as it stands in the given list.
pub open spec fn lifetime_in(lifetime: Seq<char>, list: ParamList) -> Seq<char> {
    if list is Owned {
        "'static"@
    } else {
        lifetime
    }
}

/// A type parameter as it stands in the given list.
pub open spec fn type_param_in(param: TypeParamView, list: ParamList) -> Seq<char> {
    if list is Declared {
        param.declaration
    } else {
        param.ident
    }
}

/// The members of one of the three lists: the lifetimes first, then the type
/// parameters, both in the order of the declaration.
pub open spec fn params(decl: TypeDeclarationView, list: ParamList) -> Seq<Seq<char>> {
    decl.lifetimes.map_values(|l: Seq<char>| lifetime_in(l, list)) + decl.type_params.map_values(
        |p: TypeParamView| type_param_in(p, list),
    )
}

/// A list of generic parameters in angle brackets, or nothing at all where
/// the list is empty.
pub open spec fn generic_list(params: Seq<Seq<char>>) -> Seq<Seq<char>> {
    if params.len() == 0 {
        Seq::empty()
    } else {
        seq!["<"@] + separated(params.map_values(|p: Seq<char>| seq![p]), ","@) + seq![">"@]
    }
}

/// The signature of the generated method: it takes the value itself and
/// returns the declared type with the owned list of parameters.
pub open spec fn signature(decl: TypeDeclarationView) -> Seq<Seq<char>> {
    seq!["pub"@, "fn"@, method_name(), "("@, "self"@, ")"@, "->"@, decl.ident] + generic_list(
        params(decl, ParamList::Owned),
    )
}

/// The generated `impl` block.
pub open spec fn impl_fragments(decl: TypeDeclarationView) -> Seq<Seq<char>> {
    seq!["impl"@] + generic_list(params(decl, ParamList::Declared)) + seq![decl.ident]
        + generic_list(params(decl, ParamList::Named)) + seq!["{"@] + signature(decl) + seq!["{"@]
        + body_fragments(decl) + seq!["}"@, "}"@]
}

/// In a conversion, an access that was rendered beforehand reads as its
/// parts.
pub proof fn lemma_converted_splice(kind: FieldKind, access: Seq<Seq<char>>)
    ensures
        render(converted(kind, seq![render(access)])) == render(converted(kind, access)),
{
    let head = seq!["::"@, "std"@, "::"@, "borrow"@, "::"@, "Cow"@, "::"@, "Owned"@, "("@];
    let call = seq!["."@, method_name(), "("@, ")"@];
    let none = Seq::<Seq<char>>::empty();
    match kind {
        FieldKind::PlainCow => {
            lemma_render_splice(head, access, call + seq![")"@]);
            assert(converted(kind, seq![render(access)]) =~= head + seq![render(access)] + (call
                + seq![")"@]));
            assert(converted(kind, access) =~= head + access + (call + seq![")"@]));
        },
        FieldKind::AssumedCow => {
            lemma_render_splice(none, access, call);
            assert(converted(kind, seq![render(access)]) =~= none + seq![render(access)] + call);
            assert(converted(kind, access) =~= none + access + call);
        },
        FieldKind::RecursiveOption(_) => {},
        FieldKind::JustMoved => {
            lemma_render_splice(none, access, none);
            assert(converted(kind, seq![render(access)]) =~= none + seq![render(access)] + none);
            assert(converted(kind, access) =~= none + access + none);
        },
    }
}

impl FieldKind {
    /// Writes the expression that gives the new value of a field of this
    /// kind, where `access` reads the old value.
    pub fn move_or_clone_field(&self, access: &str) -> (code: String)
        requires
            !(self is RecursiveOption),
        ensures
            code@ == render(converted(*self, seq![access@])),
    {
        let mut out = Writer::new();
        match self {
            FieldKind::PlainCow => {
                out.token("::");
                out.token("std");
                out.token("::");
                out.token("borrow");
                out.token("::");
                out.token("Cow");
                out.token("::");
                out.token("Owned");
                out.token("(");
                out.token(access);
                out.token(".");
                out.token("into_owned");
                out.token("(");
                out.token(")");
                out.token(")");
            },
            FieldKind::AssumedCow => {
                out.token(access);
                out.token(".");
                out.token("into_owned");
                out.token("(");
                out.token(")");
            },
            FieldKind::RecursiveOption(_) => {},
            FieldKind::JustMoved => {
                out.token(access);
            },
        }
        assert(out.fragments() =~= converted(*self, seq![access@]));
        out.finish()
    }
}

/// Writes how the old value of the field `name` is read.
fn access_by_name(name: &str, bound: bool) -> (access: String)
    ensures
        access@ == render(named_access(name@, bound)),
{
    let mut out = Writer::new();
    if !bound {
        out.token("self");
        out.token(".");
    }
    out.token(name);
    assert(out.fragments() =~= named_access(name@, bound));
    out.finish()
}

/// Writes the name that a pattern gives to the positional field `index`.
fn binding_name(index: usize) -> (name: String)
    ensures
        name@ == binding(index as nat),
{
    let mut name = String::from_str("x");
    name.append(decimal_text(index).as_str());
    name
}

/// Writes how the old value of the positional field `index` is read.
fn access_by_position(index: usize, bound: bool) -> (access: String)
    ensures
        access@ == render(positional_access(index as nat, bound)),
{
    let mut out = Writer::new();
    if bound {
        out.token(binding_name(index).as_str());
    } else {
        out.token("self");
        out.token(".");
        out.token(decimal_text(index).as_str());
    }
    assert(out.fragments() =~= positional_access(index as nat, bound));
    out.finish()
}

/// Writes the new value of a field of type `ty` into `out`, where `access`
/// reads the old value.
fn write_converted(out: &mut Writer, ty: &Type, access: &str, Ghost(parts): Ghost<Seq<Seq<char>>>)
    requires
        old(out).wf(),
        access@ == render(parts),
    ensures
        final(out).wf(),
        final(out).fragments() == old(out).fragments() + converted(classify(ty@), parts),
{
    let kind = FieldKind::resolve(ty);
    let code = kind.move_or_clone_field(access);
    proof {
        lemma_converted_splice(kind, parts);
    }
    out.nested(code.as_str(), Ghost(converted(kind, parts)));
}

/// Writes into `out` what follows the path of a structure or of a case in
/// the expression that rebuilds it.
fn write_rebuilt(out: &mut Writer, fields: &Fields, bound: bool)
    requires
        old(out).wf(),
    ensures
        final(out).wf(),
        final(out).fragments() == old(out).fragments() + rebuilt(fields@, bound),
{
    let ghost before = out.fragments();
    match fields {
        Fields::Named(fields) => {
            let ghost entries = named_entries(fields@.map_values(|f: Field| f@), bound);
            out.token("{");
            let mut i: usize = 0;
            while i < fields.len()
                invariant
                    out.wf(),
                    i <= fields.len(),
                    entries == named_entries(fields@.map_values(|f: Field| f@), bound),
                    out.fragments() == before + seq!["{"@] + separated(
                        entries.take(i as int),
                        ","@,
                    ),
                decreases fields.len() - i,
            {
                let field = &fields[i];
                if i > 0 {
                    out.token(",");
                }
                out.token(field.ident.as_str());
                out.token(":");
                let access = access_by_name(field.ident.as_str(), bound);
                write_converted(
                    out,
                    &field.ty,
                    access.as_str(),
                    Ghost(named_access(field.ident@, bound)),
                );
                proof {
                    let done = entries.take(i as int);
                    assert(entries.take(i + 1) =~= done.push(entries[i as int]));
                    lemma_separated_push(done, entries[i as int], ","@);
                    assert(out.fragments() =~= before + seq!["{"@] + separated(
                        entries.take(i + 1),
                        ","@,
                    ));
                }
                i += 1;
            }
            assert(entries.take(i as int) =~= entries);
            out.token("}");
        },
        Fields::Positional(types) => {
            let ghost entries = positional_entries(types@.map_values(|t: Type| t@), bound);
            out.token("(");
            let mut i: usize = 0;
            while i < types.len()
                invariant
                    out.wf(),
                    i <= types.len(),
                    entries == positional_entries(types@.map_values(|t: Type| t@), bound),
                    out.fragments() == before + seq!["("@] + separated(
                        entries.take(i as int),
                        ","@,
                    ),
                decreases types.len() - i,
            {
                if i > 0 {
                    out.token(",");
                }
                let access = access_by_position(i, bound);
                write_converted(
                    out,
                    &types[i],
                    access.as_str(),
                    Ghost(positional_access(i as nat, bound)),
                );
                proof {
                    let done = entries.take(i as int);
                    assert(entries.take(i + 1) =~= done.push(entries[i as int]));
                    lemma_separated_push(done, entries[i as int], ","@);
                    assert(out.fragments() =~= before + seq!["("@] + separated(
                        entries.take(i + 1),
                        ","@,
                    ));
                }
                i += 1;
            }
            assert(entries.take(i as int) =~= entries);
            out.token(")");
        },
        Fields::Unit => {},
    }
    assert(out.fragments() =~= before + rebuilt(fields@, bound));
}

/// Writes into `out` what follows the path of a case in the pattern that
/// takes its fields apart.
fn write_pattern(out: &mut Writer, fields: &Fields)
    requires
        old(out).wf(),
    ensures
        final(out).wf(),
        final(out).fragments() == old(out).fragments() + pattern(fields@),
{
    let ghost before = out.fragments();
    let ghost names = bindings(fields@);
    match fields {
        Fields::Named(named) => {
            out.token("{");
            let mut i: usize = 0;
            while i < named.len()
                invariant
                    out.wf(),
                    i <= named.len(),
                    names == bindings(fields@),
                    fields@ == FieldsView::Named(named@.map_values(|f: Field| f@)),
                    out.fragments() == before + seq!["{"@] + separated(names.take(i as int), ","@),
                decreases named.len() - i,
            {
                if i > 0 {
                    out.token(",");
                }
                out.token(named[i].ident.as_str());
                proof {
                    let done = names.take(i as int);
                    assert(names.take(i + 1) =~= done.push(names[i as int]));
                    lemma_separated_push(done, names[i as int], ","@);
                    assert(out.fragments() =~= before + seq!["{"@] + separated(
                        names.take(i + 1),
                        ","@,
                    ));
                }
                i += 1;
            }
            assert(names.take(i as int) =~= names);
            out.token("}");
        },
        Fields::Positional(types) => {
            out.token("(");
            let mut i: usize = 0;
            while i < types.len()
                invariant
                    out.wf(),
                    i <= types.len(),
                    names == bindings(fields@),
                    fields@ == FieldsView::Positional(types@.map_values(|t: Type| t@)),
                    out.fragments() == before + seq!["("@] + separated(names.take(i as int), ","@),
                decreases types.len() - i,
            {
                if i > 0 {
                    out.token(",");
                }
                out.token(binding_name(i).as_str());
                proof {
                    let done = names.take(i as int);
                    assert(names.take(i + 1) =~= done.push(names[i as int]));
                    lemma_separated_push(done, names[i as int], ","@);
                    assert(out.fragments() =~= before + seq!["("@] + separated(
                        names.take(i + 1),
                        ","@,
                    ));
                }
                i += 1;
            }
            assert(names.take(i as int) =~= names);
            out.token(")");
        },
        Fields::Unit => {},
    }
    assert(out.fragments() =~= before + pattern(fields@));
}

/// Writes what follows the name of a structure in the expression that
/// rebuilds it from `self`: the fields in braces or in round brackets, each
/// moved or converted as its type asks for, or nothing for a structure
/// without fields.
pub fn ctor_fields(fields: &Fields) -> (code: String)
    ensures
        code@ == render(ctor_fragments(fields@)),
{
    let mut out = Writer::new();
    write_rebuilt(&mut out, fields, false);
    assert(out.fragments() =~= ctor_fragments(fields@));
    out.finish()
}

/// Writes the path of a case of the type `name`.
fn path_of_case(name: &str, case: &str) -> (path: String)
    ensures
        path@ == render(case_path(name@, case@)),
{
    let mut out = Writer::new();
    out.token(name);
    out.token("::");
    out.token(case);
    assert(out.fragments() =~= case_path(name@, case@));
    out.finish()
}

/// Writes the arm of the `match` for one case of the tagged union `name`:
/// the pattern that takes the case apart, and behind the arrow the
/// expression that rebuilds it, each field moved or converted as its type
/// asks for.
pub fn match_arm(name: &str, case: &Case) -> (code: String)
    ensures
        code@ == render(arm_fragments(name@, case@)),
{
    let path = path_of_case(name, case.ident.as_str());
    let ghost path_parts = case_path(name@, case.ident@);
    let mut out = Writer::new();
    out.nested(path.as_str(), Ghost(path_parts));
    write_pattern(&mut out, &case.fields);
    out.token("=>");
    out.nested(path.as_str(), Ghost(path_parts));
    write_rebuilt(&mut out, &case.fields, true);
    assert(out.fragments() =~= arm_fragments(name@, case@));
    out.finish()
}

/// Writes one of the three lists of generic parameters into `out`.
fn write_generics(out: &mut Writer, decl: &TypeDeclaration, list: ParamList)
    requires
        old(out).wf(),
    ensures
        final(out).wf(),
        final(out).fragments() == old(out).fragments() + generic_list(params(decl@, list)),
{
    let ghost before = out.fragments();
    let ghost members = params(decl@, list);
    let ghost items = members.map_values(|p: Seq<char>| seq![p]);
    let lifetimes = decl.lifetimes.len();
    let type_params = decl.type_params.len();
    if lifetimes == 0 && type_params == 0 {
        assert(out.fragments() =~= before + generic_list(members));
        return ;
    }
    out.token("<");
    let mut i: usize = 0;
    while i < lifetimes
        invariant
            out.wf(),
            i <= lifetimes,
            lifetimes == decl.lifetimes.len(),
            members == params(decl@, list),
            items == members.map_values(|p: Seq<char>| seq![p]),
            out.fragments() == before + seq!["<"@] + separated(items.take(i as int), ","@),
        decreases lifetimes - i,
    {
        if i > 0 {
            out.token(",");
        }
        match list {
            ParamList::Owned => out.token("'static"),
            _ => out.token(decl.lifetimes[i].declaration.as_str()),
        }
        proof {
            let done = items.take(i as int);
            assert(items.take(i + 1) =~= done.push(items[i as int]));
            lemma_separated_push(done, items[i as int], ","@);
            assert(out.fragments() =~= before + seq!["<"@] + separated(items.take(i + 1), ","@));
        }
        i += 1;
    }
    let mut j: usize = 0;
    while j < type_params
        invariant
            out.wf(),
            j <= type_params,
            lifetimes == decl.lifetimes.len(),
            type_params == decl.type_params.len(),
            members == params(decl@, list),
            items == members.map_values(|p: Seq<char>| seq![p]),
            out.fragments() == before + seq!["<"@] + separated(items.take(lifetimes + j), ","@),
        decreases type_params - j,
    {
        if lifetimes > 0 || j > 0 {
            out.token(",");
        }
        match list {
            ParamList::Declared => out.token(decl.type_params[j].declaration.as_str()),
            _ => out.token(decl.type_params[j].ident.as_str()),
        }
        proof {
            let done = items.take(lifetimes + j);
            assert(items.take(lifetimes + j + 1) =~= done.push(items[lifetimes + j]));
            lemma_separated_push(done, items[lifetimes + j], ","@);
            assert(out.fragments() =~= before + seq!["<"@] + separated(
                items.take(lifetimes + j + 1),
                ","@,
            ));
        }
        j += 1;
    }
    assert(items.take(lifetimes + j) =~= items);
    out.token(">");
    assert(out.fragments() =~= before + generic_list(members));
}

/// Writes the body of the generated method into `out`.
fn write_body(out: &mut Writer, decl: &TypeDeclaration)
    requires
        old(out).wf(),
    ensures
        final(out).wf(),
        final(out).fragments() == old(out).fragments() + body_fragments(decl@),
{
    let ghost before = out.fragments();
    match &decl.body {
        Body::PlainStructure(fields) => {
            let inner = ctor_fields(fields);
            out.token(decl.ident.as_str());
            out.nested(inner.as_str(), Ghost(ctor_fragments(fields@)));
        },
        Body::TaggedUnion(cases) => {
            let ghost all = arms(decl.ident@, cases@.map_values(|c: Case| c@));
            out.token("match");
            out.token("self");
            out.token("{");
            let mut i: usize = 0;
            while i < cases.len()
                invariant
                    out.wf(),
                    i <= cases.len(),
                    all == arms(decl.ident@, cases@.map_values(|c: Case| c@)),
                    out.fragments() == before + seq!["match"@, "self"@, "{"@] + separated(
                        all.take(i as int),
                        ","@,
                    ),
                decreases cases.len() - i,
            {
                if i > 0 {
                    out.token(",");
                }
                let arm = match_arm(decl.ident.as_str(), &cases[i]);
                out.nested(arm.as_str(), Ghost(all[i as int]));
                proof {
                    let done = all.take(i as int);
                    assert(all.take(i + 1) =~= done.push(all[i as int]));
                    lemma_separated_push(done, all[i as int], ","@);
                    assert(out.fragments() =~= before + seq!["match"@, "self"@, "{"@] + separated(
                        all.take(i + 1),
                        ","@,
                    ));
                }
                i += 1;
            }
            assert(all.take(i as int) =~= all);
            out.token("}");
        },
    }
    assert(out.fragments() =~= before + body_fragments(decl@));
}

/// Writes the `impl` block that gives the declared type its `into_owned`:
/// a method that takes the value and returns it with `'static` in place of
/// every lifetime parameter, each field moved or converted as its type asks
/// for. A declaration without generic parameters gets no angle brackets.
pub fn impl_into_owned(decl: &TypeDeclaration) -> (code: String)
    ensures
        code@ == render(impl_fragments(decl@)),
{
    let mut out = Writer::new();
    out.token("impl");
    write_generics(&mut out, decl, ParamList::Declared);
    out.token(decl.ident.as_str());
    write_generics(&mut out, decl, ParamList::Named);
    out.token("{");
    out.token("pub");
    out.token("fn");
    out.token("into_owned");
    out.token("(");
    out.token("self");
    out.token(")");
    out.token("->");
    out.token(decl.ident.as_str());
    write_generics(&mut out, decl, ParamList::Owned);
    out.token("{");
    write_body(&mut out, decl);
    out.token("}");
    out.token("}");
    assert(out.fragments() =~= impl_fragments(decl@));
    out.finish()
}

} // verus!
