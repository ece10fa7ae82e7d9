//! Fragments of generated code and the text they stand for.
//!
//! A fragment is a piece of text that is written in one go: a keyword, a
//! punctuation mark, an identifier. A sequence of fragments is rendered by
//! joining its non-empty members with single spaces.

use vstd::prelude::*;

verus! {

/// The text of `left` followed by `right`: a single space parts the two when
/// neither is empty.
pub open spec fn spaced(left: Seq<char>, right: Seq<char>) -> Seq<char> {
    if left.len() > 0 && right.len() > 0 {
        left + seq![' '] + right
    } else {
        left + right
    }
}

/// The text of a sequence of fragments.
pub open spec fn render(fragments: Seq<Seq<char>>) -> Seq<char>
    decreases fragments.len(),
{
    if fragments.len() == 0 {
        Seq::empty()
    } else {
        spaced(render(fragments.drop_last()), fragments.last())
    }
}

/// The members of `items` in order, with `separator` between each two.
pub open spec fn separated(items: Seq<Seq<Seq<char>>>, separator: Seq<char>) -> Seq<Seq<char>>
    decreases items.len(),
{
    if items.len() == 0 {
        Seq::empty()
    } else if items.len() == 1 {
        items[0]
    } else {
        separated(items.drop_last(), separator) + seq![separator] + items.last()
    }
}

/// Joining with a space is associative.
pub proof fn lemma_spaced_associative(a: Seq<char>, b: Seq<char>, c: Seq<char>)
    ensures
        spaced(spaced(a, b), c) == spaced(a, spaced(b, c)),
{
    assert(spaced(spaced(a, b), c) =~= spaced(a, spaced(b, c)));
}

/// The empty text is neutral on both sides.
pub proof fn lemma_spaced_empty(a: Seq<char>)
    ensures
        spaced(Seq::empty(), a) == a,
        spaced(a, Seq::empty()) == a,
{
    assert(spaced(Seq::empty(), a) =~= a);
    assert(spaced(a, Seq::empty()) =~= a);
}

/// Writing one more fragment joins it to the text so far.
pub proof fn lemma_render_push(fragments: Seq<Seq<char>>, fragment: Seq<char>)
    ensures
        render(fragments.push(fragment)) == spaced(render(fragments), fragment),
{
    assert(fragments.push(fragment).drop_last() =~= fragments);
}

/// Rendering distributes over concatenation.
pub proof fn lemma_render_concat(a: Seq<Seq<char>>, b: Seq<Seq<char>>)
    ensures
        render(a + b) == spaced(render(a), render(b)),
    decreases b.len(),
{
    if b.len() == 0 {
        assert(a + b =~= a);
        lemma_spaced_empty(render(a));
    } else {
        assert((a + b).drop_last() =~= a + b.drop_last());
        lemma_render_concat(a, b.drop_last());
        lemma_spaced_associative(render(a), render(b.drop_last()), b.last());
    }
}

/// A fragment that is itself a rendering may be replaced by its parts.
pub proof fn lemma_render_nested(a: Seq<Seq<char>>, inner: Seq<Seq<char>>)
    ensures
        render(a.push(render(inner))) == render(a + inner),
{
    lemma_render_push(a, render(inner));
    lemma_render_concat(a, inner);
}

/// A rendering that stands as one fragment among others may be replaced by
/// its parts.
pub proof fn lemma_render_splice(
    before: Seq<Seq<char>>,
    inner: Seq<Seq<char>>,
    after: Seq<Seq<char>>,
)
    ensures
        render(before + seq![render(inner)] + after) == render(before + inner + after),
{
    assert(before + seq![render(inner)] =~= before.push(render(inner)));
    lemma_render_nested(before, inner);
    lemma_render_concat(before + seq![render(inner)], after);
    lemma_render_concat(before + inner, after);
}

/// One more item is set off from the items before it by the separator.
pub proof fn lemma_separated_push(
    items: Seq<Seq<Seq<char>>>,
    item: Seq<Seq<char>>,
    separator: Seq<char>,
)
    ensures
        separated(items.push(item), separator) == if items.len() == 0 {
            item
        } else {
            separated(items, separator) + seq![separator] + item
        },
{
    assert(items.push(item).drop_last() =~= items);
}

} // verus!
