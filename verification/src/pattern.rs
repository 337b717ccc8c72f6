//! Regular-expression search, as the `regex` crate performs it.

use vstd::prelude::*;

verus! {

/// `regex::Error`, what `regex::Regex::new` refuses a pattern with. It is
/// carried, never looked into.
#[verifier::external_type_specification]
#[verifier::external_body]
pub struct ExRegexError(regex::Error);

/// Whether `regex::Regex::new` accepts `pattern`.
pub uninterp spec fn pattern_compiles(pattern: Seq<char>) -> bool;

/// What the first match of `pattern` in `haystack` captures in its first
/// group, as UTF-8 bytes: `None` where nothing matches, `Some(None)` where a
/// match leaves the first group unset.
pub uninterp spec fn first_capture(pattern: Seq<char>, haystack: Seq<char>) -> Option<
    Option<Seq<u8>>,
>;

/// The byte sequences inside a search result.
pub open spec fn capture_view(found: Option<Option<Vec<u8>>>) -> Option<Option<Seq<u8>>> {
    match found {
        None => None,
        Some(None) => Some(None),
        Some(Some(bytes)) => Some(Some(bytes@)),
    }
}

/// Compiles `pattern` with `regex::Regex::new` and searches `haystack` with
/// `Regex::captures`, taking the first group with `Captures::get`. Nothing is
/// proved here: the contract only names what the crate decides, that is
/// whether the pattern compiles and what the first match captures.
#[verifier::external_body]
pub(crate) fn search(pattern: &str, haystack: &str) -> (r: Result<
    Option<Option<Vec<u8>>>,
    regex::Error,
>)
    ensures
        r is Ok == pattern_compiles(pattern@),
        r matches Ok(found) ==> capture_view(found) == first_capture(pattern@, haystack@),
{
    let re = regex::Regex::new(pattern)?;
    Ok(re.captures(haystack).map(|c| c.get(1).map(|m| m.as_str().as_bytes().to_vec())))
}

} // verus!
