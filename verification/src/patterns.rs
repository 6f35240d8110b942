//! Trusted boundary around the `regex` crate.
//!
//! A rule's body predicate is a regular expression compiled once at
//! resolution time and evaluated against each request body. Which strings a
//! pattern accepts is far too large to restate here, so it is given a name:
//! `regex_accepts` stands for the answer `Regex::is_match` gives, as a
//! function of the pattern and the haystack alone.

use vstd::prelude::*;

verus! {

#[verifier::external_type_specification]
#[verifier::external_body]
pub struct ExRegex(regex::Regex);

/// Whether `Regex::new` accepts `pat` as a valid pattern.
pub uninterp spec fn regex_valid(pat: Seq<char>) -> bool;

/// The pattern a compiled regular expression was built from.
pub uninterp spec fn regex_pattern(re: regex::Regex) -> Seq<char>;

/// Whether the pattern `pat` matches somewhere in `text`.
pub uninterp spec fn regex_accepts(pat: Seq<char>, text: Seq<char>) -> bool;

/// Relies on `regex::Regex::new`: compilation succeeds or fails on the
/// pattern text alone, and the built matcher carries exactly that pattern.
#[verifier::external_body]
pub(crate) fn regex_compile(pat: &str) -> (r: Option<regex::Regex>)
    ensures
        r is Some <==> regex_valid(pat@),
        r matches Some(re) ==> regex_pattern(re) == pat@,
{
    regex::Regex::new(pat).ok()
}

/// Relies on `regex::Regex::is_match`: the answer depends on the compiled
/// pattern and the haystack alone.
#[verifier::external_body]
pub(crate) fn regex_is_match(re: &regex::Regex, text: &str) -> (r: bool)
    ensures
        r == regex_accepts(regex_pattern(*re), text@),
{
    re.is_match(text)
}

} // verus!
