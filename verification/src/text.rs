//! Occurrence of one text inside another.

use vstd::prelude::*;

verus! {

/// Whether `needle` stands somewhere in `text` as a contiguous run.
pub open spec fn occurs_in(needle: Seq<char>, text: Seq<char>) -> bool {
    exists|at: int|
        0 <= at && at + needle.len() <= text.len() && #[trigger] text.subrange(
            at,
            at + needle.len(),
        ) == needle
}

/// A text occurs in whatever is written around it.
pub proof fn lemma_occurs_between(before: Seq<char>, needle: Seq<char>, after: Seq<char>)
    ensures
        occurs_in(needle, before + needle + after),
{
    let text = before + needle + after;
    let at = before.len() as int;
    assert(text.subrange(at, at + needle.len()) =~= needle);
}

/// Each of four texts written one behind the other occurs in the whole.
pub proof fn lemma_occurs_in_four(a: Seq<char>, b: Seq<char>, c: Seq<char>, d: Seq<char>)
    ensures
        occurs_in(a, a + b + c + d),
        occurs_in(b, a + b + c + d),
        occurs_in(c, a + b + c + d),
        occurs_in(d, a + b + c + d),
{
    let whole = a + b + c + d;
    let none = Seq::<char>::empty();
    assert(whole =~= none + a + (b + c + d));
    lemma_occurs_between(none, a, b + c + d);
    assert(whole =~= a + b + (c + d));
    lemma_occurs_between(a, b, c + d);
    lemma_occurs_between(a + b, c, d);
    assert(whole =~= a + b + c + d + none);
    lemma_occurs_between(a + b + c, d, none);
}

/// Occurrence carries over from a part to the whole.
pub proof fn lemma_occurs_in_transitive(needle: Seq<char>, part: Seq<char>, whole: Seq<char>)
    requires
        occurs_in(needle, part),
        occurs_in(part, whole),
    ensures
        occurs_in(needle, whole),
{
    let inner = choose|at: int|
        0 <= at && at + needle.len() <= part.len() && #[trigger] part.subrange(
            at,
            at + needle.len(),
        ) == needle;
    let outer = choose|at: int|
        0 <= at && at + part.len() <= whole.len() && #[trigger] whole.subrange(
            at,
            at + part.len(),
        ) == part;
    let at = outer + inner;
    assert(whole.subrange(at, at + needle.len()) =~= whole.subrange(
        outer,
        outer + part.len(),
    ).subrange(inner, inner + needle.len()));
}

} // verus!
