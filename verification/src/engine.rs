//! The regular-expression engine, as far as this crate relies on it.
//!
//! Matching and the expansion of group references in a replacement are the
//! `regex` crate's work. Nothing here is proved: the module gives names to
//! what that crate returns, whether a pattern compiles and what replacing
//! all its matches in a text gives, and states the one call in their terms.

use regex::Regex;
use std::borrow::Cow;
use vstd::prelude::*;

verus! {

/// `regex::Error`, the reason that `Regex::new` gives for refusing a
/// pattern. It is carried through unread.
#[verifier::external_type_specification]
#[verifier::external_body]
pub struct ExRegexError(regex::Error);

/// Whether `Regex::new` accepts the pattern: whether it is well formed and
/// compiles within the size limit that the engine sets by default.
pub uninterp spec fn compiles(pattern: Seq<char>) -> bool;

/// What `Regex::replace_all` makes of `text` for the regular expression
/// compiled from `pattern`: `None` where the pattern matches nowhere in the
/// text, else the text with each match, found from left to right and none
/// overlapping another, replaced by the expansion of `replacement`.
pub uninterp spec fn rewritten(
    pattern: Seq<char>,
    replacement: Seq<char>,
    text: Seq<char>,
) -> Option<Seq<char>>;

/// A rewritten text, where there is one, as a sequence of characters.
pub open spec fn outcome_view(outcome: Option<String>) -> Option<Seq<char>> {
    match outcome {
        Some(new_text) => Some(new_text@),
        None => None,
    }
}

/// Compiles `pattern` with `Regex::new` and, where that succeeds, replaces
/// all matches in `text` with `Regex::replace_all`.
///
/// Trusted. The contract claims that `Regex::new` accepts the same patterns
/// on every call, that `replace_all` returns the same for the same pattern,
/// text and replacement, and that it hands back the borrowed text, here
/// `None`, exactly where the pattern matches nowhere: with a plain
/// replacement and with one that refers to groups it looks for a first match
/// and returns the text as it got it when there is none.
#[verifier::external_body]
pub(crate) fn regex_replace_all(pattern: &str, replacement: &str, text: &str) -> (r: Result<
    Option<String>,
    regex::Error,
>)
    ensures
        r is Ok <==> compiles(pattern@),
        r matches Ok(outcome) ==> outcome_view(outcome) == rewritten(
            pattern@,
            replacement@,
            text@,
        ),
{
    match Regex::new(pattern) {
        Ok(regex) => match regex.replace_all(text, replacement) {
            Cow::Borrowed(_) => Ok(None),
            Cow::Owned(new_text) => Ok(Some(new_text)),
        },
        Err(error) => Err(error),
    }
}

} // verus!
