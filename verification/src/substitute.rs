//! Replacing every match of a pattern in a text.

use crate::engine::{compiles, outcome_view, regex_replace_all, rewritten};
use crate::failure::{Failure, FailureView};
use vstd::prelude::*;

verus! {

/// Whether the pattern matches anywhere in the text: whether the engine,
/// asked to put `replacement` in the place of each match, found one.
pub open spec fn matches_somewhere(
    pattern: Seq<char>,
    replacement: Seq<char>,
    text: Seq<char>,
) -> bool {
    rewritten(pattern, replacement, text) is Some
}

/// The text that a substitution leaves: the rewritten text where something
/// matched, the text itself where nothing did.
pub open spec fn substituted(text: Seq<char>, outcome: Option<Seq<char>>) -> Seq<char> {
    match outcome {
        Some(new_text) => new_text,
        None => text,
    }
}

/// The text with every match of the pattern replaced.
pub open spec fn replaced(pattern: Seq<char>, replacement: Seq<char>, text: Seq<char>) -> Seq<
    char,
> {
    substituted(text, rewritten(pattern, replacement, text))
}

/// What [`replace`] returns: the replaced text where the pattern compiles,
/// the compile error where it does not.
pub open spec fn replace_result(
    pattern: Seq<char>,
    replacement: Seq<char>,
    text: Seq<char>,
) -> Result<Seq<char>, FailureView> {
    if compiles(pattern) {
        Ok(replaced(pattern, replacement, text))
    } else {
        Err(FailureView::PatternCompile)
    }
}

/// The result of a substitution with text and error as their views.
pub open spec fn result_view(r: Result<String, Failure>) -> Result<Seq<char>, FailureView> {
    match r {
        Ok(text) => Ok(text@),
        Err(error) => Err(error@),
    }
}

/// The text that a substitution leaves, given what the engine made of
/// `data`: its rewritten text, or `data` itself where nothing matched.
pub fn finish(data: &str, outcome: Option<String>) -> (text: String)
    ensures
        text@ == substituted(data@, outcome_view(outcome)),
{
    match outcome {
        Some(new_text) => new_text,
        None => data.to_owned(),
    }
}

/// Replaces every match of the pattern `search_target` in `data` by
/// `replacement`, in which `$1`, `$name` and the like stand for what the
/// groups of the pattern captured. Fails where the pattern does not compile,
/// and only there; a text in which nothing matches comes back unchanged.
pub fn replace(search_target: &str, replacement: &str, data: &str) -> (r: Result<String, Failure>)
    ensures
        result_view(r) == replace_result(search_target@, replacement@, data@),
        compiles(search_target@) && !matches_somewhere(search_target@, replacement@, data@)
            ==> result_view(r) == Ok::<Seq<char>, FailureView>(data@),
{
    match regex_replace_all(search_target, replacement, data) {
        Ok(outcome) => Ok(finish(data, outcome)),
        Err(_) => Err(Failure::PatternCompile),
    }
}

/// A text in which the pattern matches nowhere is its own replacement.
pub proof fn lemma_no_match_keeps_text(
    pattern: Seq<char>,
    replacement: Seq<char>,
    text: Seq<char>,
)
    requires
        !matches_somewhere(pattern, replacement, text),
    ensures
        replaced(pattern, replacement, text) == text,
{
}

/// Replacing a second time changes nothing where the pattern no longer
/// matches in the text that the first replacement left.
pub proof fn lemma_second_pass_keeps_text(
    pattern: Seq<char>,
    replacement: Seq<char>,
    text: Seq<char>,
)
    requires
        !matches_somewhere(pattern, replacement, replaced(pattern, replacement, text)),
    ensures
        replaced(pattern, replacement, replaced(pattern, replacement, text)) == replaced(
            pattern,
            replacement,
            text,
        ),
{
}

} // verus!
