//! Matching text without regard to case.
use vstd::prelude::*;

verus! {

/// `text` in lower case.
pub uninterp spec fn lowercase(text: Seq<char>) -> Seq<char>;

/// `needle` stands in `hay` at some position.
pub open spec fn occurs_in(needle: Seq<char>, hay: Seq<char>) -> bool {
    exists|i: int|
        0 <= i <= hay.len() - needle.len() && #[trigger] hay.subrange(i, i + needle.len()) == needle
}

/// `query` occurs in `text` once both are in lower case.
pub open spec fn matches(query: Seq<char>, text: Seq<char>) -> bool {
    occurs_in(lowercase(query), lowercase(text))
}

/// `str::to_lowercase`: the text in lower case by the rules of Unicode.
#[verifier::external_body]
pub(crate) fn to_lowercase(text: &str) -> (lower: String)
    ensures
        lower@ == lowercase(text@),
{
    text.to_lowercase()
}

/// `str::contains` with a string as its pattern: whether the pattern is a substring.
#[verifier::external_body]
pub(crate) fn contains(hay: &str, needle: &str) -> (found: bool)
    ensures
        found == occurs_in(needle@, hay@),
{
    hay.contains(needle)
}

/// Whether `text` matches a query given in lower case.
pub fn text_matches(lower_query: &str, text: &str) -> (found: bool)
    ensures
        found == occurs_in(lower_query@, lowercase(text@)),
{
    let lower = to_lowercase(text);
    contains(lower.as_str(), lower_query)
}

} // verus!
