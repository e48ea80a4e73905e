//! Searching a text for a pattern, done by the `regex` crate.

use vstd::prelude::*;

verus! {

/// What the first capture group of `pattern` holds at the leftmost place
/// where the pattern matches in `haystack`, as the `regex` crate finds it.
/// `None` where the pattern matches nowhere, where the group took no part in
/// the match, and where the crate does not accept the pattern.
pub uninterp spec fn first_group(pattern: Seq<char>, haystack: Seq<char>) -> Option<Seq<char>>;

/// `Regex::new`, then `Regex::captures` on the compiled pattern, then
/// `Captures::get` for group 1.  The contract only gives the outcome its
/// name: it depends on the two texts and on nothing else.
#[verifier::external_body]
pub(crate) fn capture_first(pattern: &str, haystack: &str) -> (r: Option<String>)
    ensures
        match r {
            Some(s) => first_group(pattern@, haystack@) == Some(s@),
            None => first_group(pattern@, haystack@) is None,
        },
{
    match regex::Regex::new(pattern) {
        Ok(re) => re.captures(haystack).and_then(|c| c.get(1)).map(|m| m.as_str().to_string()),
        Err(_) => None,
    }
}

} // verus!
