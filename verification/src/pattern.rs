//! The boundary to the `regex` crate. Matching is left to the crate; the
//! library only names what the crate returns, so that contracts can speak
//! of it.

use regex::Regex;
use vstd::prelude::*;

verus! {

/// `regex::Regex`, a compiled regular expression. Nothing inside it is
/// visible to the verifier.
#[verifier::external_type_specification]
#[verifier::external_body]
pub struct ExRegex(regex::Regex);

/// `regex::Error`, the reason why a pattern was not compiled.
#[verifier::external_type_specification]
#[verifier::external_body]
pub struct ExRegexError(regex::Error);

/// What `regex::Regex::new` returns for a pattern.
pub uninterp spec fn regex_new(pattern: Seq<char>) -> Result<Regex, regex::Error>;

/// What `regex::Regex::is_match` returns for a compiled expression and a
/// haystack.
pub uninterp spec fn regex_is_match(re: Regex, haystack: Seq<char>) -> bool;

/// `regex::Regex::new` compiles a pattern with the crate's default
/// settings. Assumed: the outcome depends on the pattern alone.
pub assume_specification[ Regex::new ](re: &str) -> (built: Result<Regex, regex::Error>)
    ensures
        built == regex_new(re@),
;

/// `regex::Regex::is_match` tells whether the expression matches anywhere
/// in the haystack. Assumed: the answer depends on the expression and the
/// haystack alone.
pub assume_specification[ Regex::is_match ](re: &Regex, haystack: &str) -> (found: bool)
    ensures
        found == regex_is_match(*re, haystack@),
;

/// Whether the regex engine accepts `pattern`.
pub open spec fn pattern_compiles(pattern: Seq<char>) -> bool {
    regex_new(pattern) is Ok
}

/// Whether `pattern` compiles and then matches somewhere in `haystack`.
pub open spec fn pattern_matches(pattern: Seq<char>, haystack: Seq<char>) -> bool {
    regex_new(pattern) matches Ok(re) && regex_is_match(re, haystack)
}

} // verus!
