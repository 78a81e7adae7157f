//! Text as sequences of characters: what it means for one text to occur
//! inside another, and the quoting that `Debug` applies to a string.

use vstd::prelude::*;
use vstd::string::StringExecFns;

verus! {

/// A message behind the name of its kind: the name in square brackets,
/// a colon, a space, and the message.
pub open spec fn tagged(name: Seq<char>, message: Seq<char>) -> Seq<char> {
    "["@ + name + "]: "@ + message
}

/// Writes `message` behind `name` in square brackets.
pub fn tag(name: &str, message: &str) -> (s: String)
    ensures
        s@ == tagged(name@, message@),
{
    let mut s = String::from_str("[");
    s.append(name);
    s.append("]: ");
    s.append(message);
    s
}

/// `needle` stands in `hay` starting at index `at`.
pub open spec fn occurs_at(hay: Seq<char>, needle: Seq<char>, at: int) -> bool {
    &&& 0 <= at
    &&& at + needle.len() <= hay.len()
    &&& hay.subrange(at, at + needle.len()) == needle
}

/// `needle` is a contiguous part of `hay`.
pub open spec fn contains_text(hay: Seq<char>, needle: Seq<char>) -> bool {
    exists|at: int| occurs_at(hay, needle, at)
}

/// The middle of a three-part concatenation occurs in the whole, right
/// after the first part.
pub proof fn lemma_middle_occurs(before: Seq<char>, middle: Seq<char>, after: Seq<char>)
    ensures
        occurs_at(before + middle + after, middle, before.len() as int),
        contains_text(before + middle + after, middle),
{
    let whole = before + middle + after;
    let at = before.len() as int;
    assert(whole.subrange(at, at + middle.len()) =~= middle);
    assert(occurs_at(whole, middle, at));
}

/// A text that ends a concatenation occurs in it.
pub proof fn lemma_tail_occurs(before: Seq<char>, tail: Seq<char>)
    ensures
        contains_text(before + tail, tail),
{
    assert(before + tail =~= before + tail + Seq::<char>::empty());
    lemma_middle_occurs(before, tail, Seq::empty());
}

/// Containment is transitive: what occurs in a part occurs in the whole.
pub proof fn lemma_contains_transitive(whole: Seq<char>, part: Seq<char>, needle: Seq<char>)
    requires
        contains_text(whole, part),
        contains_text(part, needle),
    ensures
        contains_text(whole, needle),
{
    let i = choose|at: int| occurs_at(whole, part, at);
    let j = choose|at: int| occurs_at(part, needle, at);
    assert(whole.subrange(i + j, i + j + needle.len()) =~= whole.subrange(
        i,
        i + part.len(),
    ).subrange(j, j + needle.len()));
    assert(occurs_at(whole, needle, i + j));
}

/// The text that `Debug` formatting gives for a string with the characters
/// `s`: the string between double quotes, with escapes in place of the
/// characters that cannot stand in a literal.
pub uninterp spec fn quoted(s: Seq<char>) -> Seq<char>;

/// Formats a string slice with `{:?}`, that is with `<str as Debug>::fmt`.
///
/// Trusted: the result is taken to depend on the characters of `s` alone,
/// and is given the name [`quoted`]. Nothing else is claimed of it.
#[verifier::external_body]
pub(crate) fn quote(s: &str) -> (q: String)
    ensures
        q@ == quoted(s@),
{
    format!("{:?}", s)
}

} // verus!
