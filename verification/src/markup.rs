//! Blocks of HTML markup, and the escaping of text that is spliced into them.

use vstd::prelude::*;

verus! {

/// What one character of plain text becomes inside markup: the four
/// characters that HTML reads as syntax turn into entities, every other
/// character stands for itself.
pub open spec fn escaped_char(c: char) -> Seq<char> {
    if c == '&' {
        seq!['&', 'a', 'm', 'p', ';']
    } else if c == '<' {
        seq!['&', 'l', 't', ';']
    } else if c == '>' {
        seq!['&', 'g', 't', ';']
    } else if c == '"' {
        seq!['&', 'q', 'u', 'o', 't', ';']
    } else {
        seq![c]
    }
}

/// Plain text as it appears inside markup: each character escaped in turn.
pub open spec fn escaped(text: Seq<char>) -> Seq<char>
    decreases text.len(),
{
    if text.len() == 0 {
        Seq::empty()
    } else {
        escaped(text.drop_last()) + escaped_char(text.last())
    }
}

/// Whether HTML reads `c` as syntax, so that escaping replaces it.
pub open spec fn is_special(c: char) -> bool {
    c == '&' || c == '<' || c == '>' || c == '"'
}

/// Text without special characters is its own escaped form.
pub proof fn lemma_escaped_plain(text: Seq<char>)
    requires
        forall|i: int| 0 <= i < text.len() ==> !is_special(#[trigger] text[i]),
    ensures
        escaped(text) == text,
    decreases text.len(),
{
    if text.len() > 0 {
        lemma_escaped_plain(text.drop_last());
        assert(escaped_char(text.last()) == seq![text.last()]);
        assert(text.drop_last() + seq![text.last()] =~= text);
    }
}

/// A block of HTML that needs no further escaping.
#[derive(Clone, Debug, PartialEq, Eq)]
pub struct Markup(pub String);

impl View for Markup {
    type V = Seq<char>;

    open spec fn view(&self) -> Seq<char> {
        self.0@
    }
}

impl Markup {
    /// Takes `html` as markup, unchanged: the caller vouches that it is HTML.
    pub fn pre_escaped(html: &str) -> (markup: Markup)
        ensures
            markup@ == html@,
    {
        Markup(html.to_owned())
    }

    /// The markup as a string.
    pub fn into_string(self) -> (html: String)
        ensures
            html@ == self@,
    {
        self.0
    }
}

/// Appends `text` to `out` in escaped form.
///
/// Trusted: the body calls maud's `Render::render_to` for `str`, which walks
/// the bytes of `text`, pushes `&amp;`, `&lt;`, `&gt;` and `&quot;` for the
/// four special characters and every other byte as it is. The contract says
/// the same over characters.
#[verifier::external_body]
pub(crate) fn push_text(out: &mut String, text: &str)
    ensures
        final(out)@ == old(out)@ + escaped(text@),
{
    maud::Render::render_to(text, out)
}

} // verus!
