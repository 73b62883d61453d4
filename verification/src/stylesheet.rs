//! The stylesheet that every page inlines, minified by the `css-minify`
//! crate.
//!
//! The minifier rewrites `rgb(r, g, b)` into a hexadecimal colour and stops
//! the program when a component does not fit a byte. [`inline_css`] therefore
//! looks at the source first and turns such a stylesheet down with an error
//! of its own.

use vstd::prelude::*;
use vstd::utf8::encode_utf8;
use crate::markup::Markup;

verus! {

/// Space, tab, carriage return or line feed.
pub open spec fn is_blank(b: u8) -> bool {
    b == 0x20 || b == 0x09 || b == 0x0d || b == 0x0a
}

/// An ASCII decimal digit.
pub open spec fn is_digit(b: u8) -> bool {
    0x30 <= b <= 0x39
}

/// The first position at or behind `at` that holds no blank.
pub open spec fn after_blanks(s: Seq<u8>, at: int) -> int
    decreases s.len() - at,
{
    if 0 <= at < s.len() && is_blank(s[at]) {
        after_blanks(s, at + 1)
    } else {
        at
    }
}

/// The first position at or behind `at` that holds no digit.
pub open spec fn after_digits(s: Seq<u8>, at: int) -> int
    decreases s.len() - at,
{
    if 0 <= at < s.len() && is_digit(s[at]) {
        after_digits(s, at + 1)
    } else {
        at
    }
}

/// The number that the digits of `s` from `from` up to `to` spell.
pub open spec fn decimal(s: Seq<u8>, from: int, to: int) -> nat
    decreases to - from,
{
    if from < to {
        decimal(s, from, to - 1) * 10 + (s[to - 1] - 0x30) as nat
    } else {
        0
    }
}

/// Whether a comment opens at `at`.
pub open spec fn comment_at(s: Seq<u8>, at: int) -> bool {
    0 <= at && at + 1 < s.len() && s[at] == 0x2f && s[at + 1] == 0x2a
}

/// Whether a comma stands at `at`.
pub open spec fn comma_at(s: Seq<u8>, at: int) -> bool {
    0 <= at < s.len() && s[at] == 0x2c
}

/// Whether what follows the opening parenthesis at `open` may be read as
/// the three components of an `rgb` colour of which one is above 255.
///
/// The components are numerals with blanks around them and commas between
/// them. A comment where a blank may stand counts as unsafe whatever
/// follows it.
pub open spec fn unsafe_triple(s: Seq<u8>, open: int) -> bool {
    let n1 = after_blanks(s, open + 1);
    let e1 = after_digits(s, n1);
    let c1 = after_blanks(s, e1);
    let n2 = after_blanks(s, c1 + 1);
    let e2 = after_digits(s, n2);
    let c2 = after_blanks(s, e2);
    let n3 = after_blanks(s, c2 + 1);
    let e3 = after_digits(s, n3);
    if comment_at(s, n1) {
        true
    } else if e1 == n1 {
        false
    } else if comment_at(s, c1) {
        true
    } else if !comma_at(s, c1) {
        false
    } else if comment_at(s, n2) {
        true
    } else if e2 == n2 {
        false
    } else if comment_at(s, c2) {
        true
    } else if !comma_at(s, c2) {
        false
    } else if comment_at(s, n3) {
        true
    } else if e3 == n3 {
        false
    } else {
        decimal(s, n1, e1) > 255 || decimal(s, n2, e2) > 255 || decimal(s, n3, e3) > 255
    }
}

/// Whether no parenthesis among the bytes `s` opens an unsafe triple.
pub open spec fn components_fit(s: Seq<u8>) -> bool {
    forall|open: int| 0 <= open < s.len() && s[open] == 0x28 ==> !unsafe_triple(s, open)
}

/// The stylesheets that the minifier can be handed: those whose UTF-8
/// bytes hold no unsafe triple.
pub open spec fn fits_minifier(source: Seq<char>) -> bool {
    components_fit(encode_utf8(source))
}

fn skip_blanks(bytes: &[u8], from: usize) -> (at: usize)
    requires
        from <= bytes.len(),
    ensures
        at == after_blanks(bytes@, from as int),
        from <= at <= bytes.len(),
{
    let mut at: usize = from;
    while at < bytes.len() && (bytes[at] == 0x20 || bytes[at] == 0x09 || bytes[at] == 0x0d
        || bytes[at] == 0x0a)
        invariant
            from <= at <= bytes.len(),
            after_blanks(bytes@, from as int) == after_blanks(bytes@, at as int),
        decreases bytes.len() - at,
    {
        at += 1;
    }
    at
}

/// Reads the numeral at `from`: where its digits end and whether it is at
/// most 255.
fn read_numeral(bytes: &[u8], from: usize) -> (r: (usize, bool))
    requires
        from <= bytes.len(),
    ensures
        r.0 == after_digits(bytes@, from as int),
        from <= r.0 <= bytes.len(),
        r.1 == (decimal(bytes@, from as int, r.0 as int) <= 255),
{
    let mut at: usize = from;
    let mut value: u16 = 0;
    while at < bytes.len() && 0x30 <= bytes[at] && bytes[at] <= 0x39
        invariant
            from <= at <= bytes.len(),
            after_digits(bytes@, from as int) == after_digits(bytes@, at as int),
            value <= 256,
            decimal(bytes@, from as int, at as int) <= 255 ==> value == decimal(
                bytes@,
                from as int,
                at as int,
            ),
            decimal(bytes@, from as int, at as int) > 255 ==> value == 256,
        decreases bytes.len() - at,
    {
        let digit: u16 = (bytes[at] - 0x30) as u16;
        value = if value * 10 + digit > 255 {
            256
        } else {
            value * 10 + digit
        };
        at += 1;
    }
    (at, value <= 255)
}

fn comment_opens(bytes: &[u8], at: usize) -> (opens: bool)
    requires
        at <= bytes.len(),
    ensures
        opens == comment_at(bytes@, at as int),
{
    at < bytes.len() && bytes.len() - at > 1 && bytes[at] == 0x2f && bytes[at + 1] == 0x2a
}

fn comma_stands(bytes: &[u8], at: usize) -> (stands: bool)
    requires
        at <= bytes.len(),
    ensures
        stands == comma_at(bytes@, at as int),
{
    at < bytes.len() && bytes[at] == 0x2c
}

fn triple_is_unsafe(bytes: &[u8], open: usize) -> (is_unsafe: bool)
    requires
        open < bytes.len(),
    ensures
        is_unsafe == unsafe_triple(bytes@, open as int),
{
    let n1 = skip_blanks(bytes, open + 1);
    if comment_opens(bytes, n1) {
        return true;
    }
    let (e1, fits1) = read_numeral(bytes, n1);
    if e1 == n1 {
        return false;
    }
    let c1 = skip_blanks(bytes, e1);
    if comment_opens(bytes, c1) {
        return true;
    }
    if !comma_stands(bytes, c1) {
        return false;
    }
    let n2 = skip_blanks(bytes, c1 + 1);
    if comment_opens(bytes, n2) {
        return true;
    }
    let (e2, fits2) = read_numeral(bytes, n2);
    if e2 == n2 {
        return false;
    }
    let c2 = skip_blanks(bytes, e2);
    if comment_opens(bytes, c2) {
        return true;
    }
    if !comma_stands(bytes, c2) {
        return false;
    }
    let n3 = skip_blanks(bytes, c2 + 1);
    if comment_opens(bytes, n3) {
        return true;
    }
    let (e3, fits3) = read_numeral(bytes, n3);
    if e3 == n3 {
        return false;
    }
    !(fits1 && fits2 && fits3)
}

/// Decides whether the minifier can be handed `source`.
pub fn stylesheet_fits(source: &str) -> (fits: bool)
    ensures
        fits == fits_minifier(source@),
{
    let bytes = source.as_bytes();
    let mut open: usize = 0;
    while open < bytes.len()
        invariant
            open <= bytes.len(),
            bytes@ == encode_utf8(source@),
            forall|p: int| 0 <= p < open && bytes@[p] == 0x28 ==> !unsafe_triple(bytes@, p),
        decreases bytes.len() - open,
    {
        if bytes[open] == 0x28 && triple_is_unsafe(bytes, open) {
            return false;
        }
        open += 1;
    }
    true
}

/// What the minifier makes of a stylesheet: the minified text, or `None`
/// where it does not read `source` as a stylesheet.
///
/// This names the result of `css-minify`'s `Minifier::minify` at
/// `Level::Three` with the crate's default set of rewrites. Nothing more is
/// stated of it.
pub uninterp spec fn minified_css(source: Seq<char>) -> Option<Seq<char>>;

/// The error that `css-minify` reports for a stylesheet it cannot read.
#[verifier::external_type_specification]
#[verifier::external_body]
pub struct ExMinifyError<'a>(css_minify::optimizations::MError<'a>);

/// Minifies `source`.
///
/// Trusted: the body calls `Minifier::default().minify(source, Level::Three)`
/// of `css-minify` and hands back what it returns. The call parses the
/// source, merges blocks and shorthand properties, rewrites each value and
/// prints the result. It reads nothing but `source`, so the contract names
/// its result [`minified_css`].
///
/// The call stops the program in one place: its reader of `rgb(r, g, b)`
/// unwraps each component as a `u8` once it has read all three. Merging can
/// move any text in front of a parenthesis, but what the reader finds behind
/// one is what follows it in the source; so `requires` keeps every
/// parenthesis of the source clear of such a triple, and of comments where
/// the reader would skip them. Bytes stand for characters there because
/// each character that the reader looks for is a single byte. The stack
/// that nested `@media` and `@supports` blocks take is, like memory, not
/// accounted for.
#[verifier::external_body]
fn minify<'a>(source: &'a str) -> (result: Result<String, css_minify::optimizations::MError<'a>>)
    requires
        fits_minifier(source@),
    ensures
        match result {
            Ok(css) => minified_css(source@) == Some(css@),
            Err(_) => minified_css(source@) is None,
        },
{
    css_minify::optimizations::Minifier::default().minify(
        source,
        css_minify::optimizations::Level::Three,
    )
}

/// Why a stylesheet cannot be inlined.
#[derive(Clone, Copy, Debug, PartialEq, Eq)]
pub enum StylesheetError {
    /// A parenthesis is followed by three numerals in the form of `rgb`
    /// components of which one is above 255, or by a comment in their midst.
    ComponentOutOfRange,
    /// The minifier does not read the source as a stylesheet.
    Malformed,
}

/// What inlining `source` comes to: the minified text, or the reason why
/// there is none.
pub open spec fn inlined(source: Seq<char>) -> Result<Seq<char>, StylesheetError> {
    if !fits_minifier(source) {
        Err(StylesheetError::ComponentOutOfRange)
    } else {
        match minified_css(source) {
            Some(css) => Ok(css),
            None => Err(StylesheetError::Malformed),
        }
    }
}

/// Minifies the stylesheet `source` into markup for the head of a page.
pub fn inline_css(source: &str) -> (result: Result<Markup, StylesheetError>)
    ensures
        match result {
            Ok(style) => inlined(source@) == Ok::<Seq<char>, StylesheetError>(style@),
            Err(error) => inlined(source@) == Err::<Seq<char>, StylesheetError>(error),
        },
{
    if !stylesheet_fits(source) {
        return Err(StylesheetError::ComponentOutOfRange);
    }
    match minify(source) {
        Ok(css) => Ok(Markup(css)),
        Err(_) => Err(StylesheetError::Malformed),
    }
}

} // verus!
