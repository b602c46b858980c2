//! Naming rules, written as regular expressions.

use vstd::prelude::*;

verus! {

/// What a search for the regular expression `pattern` in `haystack` gives:
/// `None` where `pattern` is no regular expression that the `regex` crate
/// compiles, else whether some part of `haystack` matches it.
pub uninterp spec fn regex_search(pattern: Seq<char>, haystack: Seq<char>) -> Option<bool>;

/// Whether `text` keeps the rule `rule`.
pub open spec fn conforms(rule: Seq<char>, text: Seq<char>) -> bool {
    regex_search(rule, text) == Some(true)
}

/// Searches `haystack` for `pattern`.
///
/// Compiles the pattern with `regex::Regex::new` and searches with
/// `regex::Regex::is_match`. Both read nothing but their arguments, so the
/// result is a function of the two texts alone; this crate proves nothing
/// else about it.
#[verifier::external_body]
pub(crate) fn search(pattern: &str, haystack: &str) -> (found: Option<bool>)
    ensures
        found == regex_search(pattern@, haystack@),
{
    match regex::Regex::new(pattern) {
        Ok(compiled) => Some(compiled.is_match(haystack)),
        Err(_) => None,
    }
}

/// Whether a search found a match. A pattern that does not compile
/// matches nothing.
pub fn found_match(found: Option<bool>) -> (r: bool)
    ensures
        r == (found == Some(true)),
{
    match found {
        Some(true) => true,
        _ => false,
    }
}

/// Tells whether `text` keeps the rule `rule`.
pub fn check(rule: &str, text: &str) -> (r: bool)
    ensures
        r == conforms(rule@, text@),
{
    found_match(search(rule, text))
}

} // verus!
