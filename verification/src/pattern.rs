//! Searching text with regular expressions, through the `regex` crate.
//! What a search finds is a function of the pattern and the text alone; this
//! crate names the results and leaves their computation to `regex`.

use vstd::prelude::*;
use regex::Regex;

verus! {

/// What a search for `pattern` anywhere in `haystack` gives: `None` when
/// `regex` rejects the pattern, otherwise whether there is a match.
pub uninterp spec fn regex_is_match(pattern: Seq<char>, haystack: Seq<char>) -> Option<bool>;

/// What the first capture group of the leftmost match of `pattern` in
/// `haystack` holds: `None` when `regex` rejects the pattern, `Some(None)`
/// when nothing matches or the group took no part in the match, otherwise the
/// text the group matched.
pub uninterp spec fn regex_first_group(pattern: Seq<char>, haystack: Seq<char>) -> Option<
    Option<Seq<char>>,
>;

/// `Regex::new` on `pattern`, then `Regex::is_match` on `haystack`. Trusted:
/// the answer is the one named `regex_is_match`, `None` standing for a
/// pattern that did not compile.
#[verifier::external_body]
pub(crate) fn is_match(pattern: &str, haystack: &str) -> (found: Option<bool>)
    ensures
        found == regex_is_match(pattern@, haystack@),
{
    match Regex::new(pattern) {
        Ok(compiled) => Some(compiled.is_match(haystack)),
        Err(_) => None,
    }
}

/// `Regex::new` on `pattern`, then `Regex::captures` on `haystack`,
/// `Captures::get(1)` and `Match::as_str`. Trusted: the answer is the one
/// named `regex_first_group`, `None` standing for a pattern that did not
/// compile.
#[verifier::external_body]
pub(crate) fn first_group(pattern: &str, haystack: &str) -> (found: Option<Option<String>>)
    ensures
        found.deep_view() == regex_first_group(pattern@, haystack@),
{
    match Regex::new(pattern) {
        Ok(compiled) => Some(
            compiled.captures(haystack).and_then(|groups| groups.get(1)).map(
                |group| group.as_str().to_string(),
            ),
        ),
        Err(_) => None,
    }
}

} // verus!
