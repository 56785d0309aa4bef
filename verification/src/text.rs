//! Operations on text that the standard library provides.

use vstd::prelude::*;

verus! {

/// Whether `prefix` is an initial part of `text`.
pub open spec fn begins_with(text: Seq<char>, prefix: Seq<char>) -> bool {
    prefix.len() <= text.len() && text.subrange(0, prefix.len() as int) == prefix
}

/// Calls `str::starts_with` with a string pattern. The contract claims that
/// the answer is `true` exactly when the characters of `prefix` are the first
/// characters of `text`, compared one by one with no normalisation.
#[verifier::external_body]
pub(crate) fn starts_with(text: &str, prefix: &str) -> (r: bool)
    ensures
        r == begins_with(text@, prefix@),
{
    text.starts_with(prefix)
}

/// Calls `str::strip_prefix` with a string pattern and copies what is left.
/// The contract claims that the call gives a text exactly when `text` begins
/// with `prefix`, and that the text is then the rest of `text`.
#[verifier::external_body]
pub(crate) fn strip_prefix(text: &str, prefix: &str) -> (r: Option<String>)
    ensures
        r is Some <==> begins_with(text@, prefix@),
        r is Some ==> r->0@ == text@.subrange(prefix@.len() as int, text@.len() as int),
{
    text.strip_prefix(prefix).map(String::from)
}

} // verus!
