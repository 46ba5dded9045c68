//! Regular expressions of the `regex` crate.

use vstd::prelude::*;
use crate::text::opt_text;

verus! {

#[verifier::external_type_specification]
#[verifier::external_body]
pub struct ExRegex(regex::Regex);

/// Whether `regex` accepts a pattern.
pub uninterp spec fn regex_compiles(pattern: Seq<char>) -> bool;

/// The pattern that a regular expression was made from.
pub uninterp spec fn regex_source(re: regex::Regex) -> Seq<char>;

/// Whether the pattern matches somewhere in the text.
pub uninterp spec fn regex_matches(pattern: Seq<char>, text: Seq<char>) -> bool;

/// What a group of the pattern holds in the leftmost match in the text:
/// nothing where the pattern does not match, or the group took no part in
/// the match, or the pattern has no such group.
pub uninterp spec fn regex_group(pattern: Seq<char>, text: Seq<char>, group: int) -> Option<
    Seq<char>,
>;

/// Calls `regex::Regex::new`, with `None` for its error: a regular expression
/// made from the pattern, where [`regex_compiles`] says that there is one.
#[verifier::external_body]
pub(crate) fn compile(pattern: &str) -> (r: Option<regex::Regex>)
    ensures
        r is Some <==> regex_compiles(pattern@),
        r matches Some(re) ==> regex_source(re) == pattern@,
{
    match regex::Regex::new(pattern) {
        Ok(re) => Some(re),
        Err(_) => None,
    }
}

/// Calls `regex::Regex::is_match`; the result is named by [`regex_matches`].
#[verifier::external_body]
pub(crate) fn is_match(re: &regex::Regex, text: &str) -> (r: bool)
    ensures
        r == regex_matches(regex_source(*re), text@),
{
    re.is_match(text)
}

/// Calls `regex::Regex::captures` and `regex::Captures::get`; the result is
/// named by [`regex_group`].
#[verifier::external_body]
pub(crate) fn group(re: &regex::Regex, text: &str, index: usize) -> (r: Option<String>)
    ensures
        opt_text(r) == regex_group(regex_source(*re), text@, index as int),
{
    match re.captures(text) {
        Some(caps) => match caps.get(index) {
            Some(m) => Some(m.as_str().to_string()),
            None => None,
        },
        None => None,
    }
}

} // verus!
