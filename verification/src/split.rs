//! Splitting a text at the matches of a regular expression.

use crate::text::views;
use vstd::prelude::*;

verus! {

/// The pieces of `haystack` that lie between the matches of `pattern`, in
/// order, as `regex::Regex::split` yields them for the expression that
/// `regex::Regex::new` compiles from `pattern`; `None` where `pattern` does
/// not compile.
pub uninterp spec fn regex_split(pattern: Seq<char>, haystack: Seq<char>) -> Option<Seq<Seq<char>>>;

/// Compiles `pattern` with `regex::Regex::new` and splits `haystack` with
/// `regex::Regex::split`. The contract claims only that the outcome is the
/// one named by [`regex_split`]: the same pattern and text give the same
/// pieces, or the same failure to compile.
#[verifier::external_body]
pub(crate) fn split_by_pattern(pattern: &str, haystack: &str) -> (parts: Option<Vec<String>>)
    ensures
        parts.is_some() == regex_split(pattern@, haystack@).is_some(),
        parts matches Some(found) ==> views(found@) == regex_split(pattern@, haystack@).unwrap(),
{
    match regex::Regex::new(pattern) {
        Ok(expression) => Some(expression.split(haystack).map(|part| part.to_string()).collect()),
        Err(_) => None,
    }
}

} // verus!
