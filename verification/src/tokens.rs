//! The token buffer of the `quote` crate, and a writer over it that keeps
//! track of the fragments written.

use crate::fragments::{lemma_render_concat, lemma_render_push, render, spaced};
use vstd::prelude::*;

verus! {

/// `quote::Tokens`: the buffer in which `quote` gathers generated code.
#[verifier::external_type_specification]
#[verifier::external_body]
pub struct ExTokens(quote::Tokens);

/// The text that a token buffer holds.
pub uninterp spec fn tokens_text(tokens: quote::Tokens) -> Seq<char>;

/// `quote::Tokens::new` returns a buffer that holds the empty text.
pub assume_specification[ quote::Tokens::new ]() -> (tokens: quote::Tokens)
    ensures
        tokens_text(tokens) == Seq::<char>::empty(),
;

/// `quote::Tokens::into_string` hands out the text that the buffer holds.
pub assume_specification[ quote::Tokens::into_string ](tokens: quote::Tokens) -> (text: String)
    ensures
        text@ == tokens_text(tokens),
;

/// `quote::Tokens::append` adds `token` at the end of the buffer's text,
/// after a single space when both the text so far and `token` are not empty.
#[verifier::external_body]
fn append_token(tokens: &mut quote::Tokens, token: &str)
    ensures
        tokens_text(*final(tokens)) == spaced(tokens_text(*old(tokens)), token@),
{
    tokens.append(token)
}

/// A token buffer together with the fragments that were written to it.
pub(crate) struct Writer {
    tokens: quote::Tokens,
    written: Ghost<Seq<Seq<char>>>,
}

impl Writer {
    /// The buffer holds the rendering of the fragments written.
    pub(crate) closed spec fn wf(&self) -> bool {
        tokens_text(self.tokens) == render(self.written@)
    }

    /// The fragments written so far.
    pub(crate) closed spec fn fragments(&self) -> Seq<Seq<char>> {
        self.written@
    }

    /// A writer to which nothing was written.
    pub(crate) fn new() -> (writer: Self)
        ensures
            writer.wf(),
            writer.fragments() == Seq::<Seq<char>>::empty(),
    {
        Writer { tokens: quote::Tokens::new(), written: Ghost(Seq::empty()) }
    }

    /// Writes one fragment.
    pub(crate) fn token(&mut self, token: &str)
        requires
            old(self).wf(),
        ensures
            final(self).wf(),
            final(self).fragments() == old(self).fragments().push(token@),
    {
        proof {
            lemma_render_push(self.written@, token@);
        }
        append_token(&mut self.tokens, token);
        self.written = Ghost(self.written@.push(token@));
    }

    /// Writes, in one go, a text that renders `inner`.
    pub(crate) fn nested(&mut self, text: &str, Ghost(inner): Ghost<Seq<Seq<char>>>)
        requires
            old(self).wf(),
            text@ == render(inner),
        ensures
            final(self).wf(),
            final(self).fragments() == old(self).fragments() + inner,
    {
        proof {
            lemma_render_concat(self.written@, inner);
        }
        append_token(&mut self.tokens, text);
        self.written = Ghost(self.written@ + inner);
    }

    /// The text of everything written.
    pub(crate) fn finish(self) -> (text: String)
        requires
            self.wf(),
        ensures
            text@ == render(self.fragments()),
    {
        self.tokens.into_string()
    }
}

} // verus!
