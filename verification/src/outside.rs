//! The calls into the `regex` and `validator` crates.
//!
//! Nothing in this file is proved: each contract restates what the called
//! function's documentation and source say.

use vstd::prelude::*;

verus! {

/// `regex::Regex`, a compiled regular expression. Nothing is known of what
/// is inside one; it is made by `regex::Regex::new` and handed to the search.
#[verifier::external_type_specification]
#[verifier::external_body]
pub struct ExRegex(regex::Regex);

/// `regex::Error`, the reason for which a pattern was refused.
#[verifier::external_type_specification]
#[verifier::external_body]
pub struct ExRegexError(regex::Error);

/// Whether `regex::Regex::new` compiles `pattern`, rather than refusing it as
/// malformed or as too large.
pub uninterp spec fn pattern_compiles(pattern: Seq<char>) -> bool;

/// Whether a regular expression that `regex::Regex::new` compiled from
/// `pattern` finds a match somewhere in `text`.
pub uninterp spec fn pattern_matches(pattern: Seq<char>, text: Seq<char>) -> bool;

/// Whether the compiled expression `re` finds a match somewhere in `text`:
/// the answer of `regex::Regex::is_match`.
pub uninterp spec fn regex_matches(re: regex::Regex, text: Seq<char>) -> bool;

/// `regex::Regex::new` compiles `re` or refuses it, and which of the two
/// depends on the text of `re` alone. An expression that it hands back
/// answers every search as the pattern it was compiled from.
pub assume_specification[ regex::Regex::new ](re: &str) -> (r: Result<regex::Regex, regex::Error>)
    ensures
        r is Ok <==> pattern_compiles(re@),
        r matches Ok(compiled) ==> forall|text: Seq<char>| #[trigger]
            regex_matches(compiled, text) == pattern_matches(re@, text),
;

/// `validator::ValidateRegex::validate_regex` on a `str`: it hands the text to
/// `regex::Regex::is_match` and returns that answer.
#[verifier::external_body]
pub(crate) fn text_matches(text: &str, re: &regex::Regex) -> (found: bool)
    ensures
        found == regex_matches(*re, text@),
{
    validator::ValidateRegex::validate_regex(text, re)
}

/// Whether a count of characters lies within the bounds that are given.
pub open spec fn within_bounds(count: nat, min: Option<u64>, max: Option<u64>) -> bool {
    &&& min matches Some(least) ==> count >= least
    &&& max matches Some(most) ==> count <= most
}

/// `validator::ValidateLength::validate_length` on a `str`, with no `equal`
/// bound: it counts the characters of the text, not its bytes, and accepts the
/// count unless it is under `min` or over `max`.
#[verifier::external_body]
pub(crate) fn length_within(text: &str, min: Option<u64>, max: Option<u64>) -> (ok: bool)
    ensures
        ok == within_bounds(text@.len(), min, max),
{
    validator::ValidateLength::validate_length(text, min, max, None)
}

} // verus!
