//! The ways a run fails, the line that reports each, and the exit codes.

use colored::Colorize;
use vstd::prelude::*;

verus! {

/// Exit code of a run that wrote its output.
pub const EXIT_SUCCESS: i32 = 0;

/// Exit code of a run that failed, whatever the failure.
pub const EXIT_FAILURE: i32 = 1;

/// Why a run ended without writing its output.
#[derive(Debug, Clone, PartialEq, Eq)]
pub enum Failure {
    /// The invocation did not consist of the program name and four values.
    Usage,
    /// The input file, named here, could not be read as text.
    InputRead(String),
    /// The pattern is not a regular expression that the engine accepts.
    PatternCompile,
    /// The output file, named here, could not be written.
    OutputWrite(String),
}

/// A [`Failure`] with each path as a sequence of characters.
pub enum FailureView {
    Usage,
    InputRead(Seq<char>),
    PatternCompile,
    OutputWrite(Seq<char>),
}

impl View for Failure {
    type V = FailureView;

    open spec fn view(&self) -> FailureView {
        match self {
            Failure::Usage => FailureView::Usage,
            Failure::InputRead(path) => FailureView::InputRead(path@),
            Failure::PatternCompile => FailureView::PatternCompile,
            Failure::OutputWrite(path) => FailureView::OutputWrite(path@),
        }
    }
}

impl FailureView {
    /// The diagnostic line for this failure behind the given marker: the
    /// marker, a space, what went wrong, and the path where a file is
    /// involved.
    pub open spec fn message(self, marker: Seq<char>) -> Seq<char> {
        match self {
            FailureView::Usage => marker + " wrong number of arguments!"@,
            FailureView::InputRead(path) => marker + " Failed to read from file "@ + path,
            FailureView::PatternCompile => marker + " invalid regular expression!"@,
            FailureView::OutputWrite(path) => marker + " Failed to write to file "@ + path,
        }
    }
}

/// The marker that opens a diagnostic line where output is not coloured:
/// the bare word.
pub open spec fn plain_marker() -> Seq<char> {
    "ERROR"@
}

/// The marker that opens a diagnostic line where output is coloured: the
/// word between the ANSI sequence for a red foreground and the reset
/// sequence.
pub open spec fn red_marker() -> Seq<char> {
    "\x1B[31mERROR\x1B[0m"@
}

/// The word `ERROR` as `colored` renders it in red.
///
/// Calls `Colorize::red` on the literal and formats the `ColoredString`
/// that comes back. Trusted: whether `colored` colours at all is settled
/// outside this crate, by an override set through `colored::control` or
/// else, once per process, by the variables `CLICOLOR`, `CLICOLOR_FORCE` and
/// `NO_COLOR` and by whether standard output is a terminal. So the contract
/// only says that the result is one of two texts: the word as it is, or the
/// word between the sequence for a red foreground and the reset sequence.
#[verifier::external_body]
fn red_error_word() -> (marker: String)
    ensures
        marker@ == plain_marker() || marker@ == red_marker(),
{
    "ERROR".red().to_string()
}

impl Failure {
    /// The diagnostic line for this failure behind the given marker.
    pub fn message(&self, marker: &str) -> (line: String)
        ensures
            line@ == self@.message(marker@),
    {
        let mut line = marker.to_owned();
        match self {
            Failure::Usage => {
                line.append(" wrong number of arguments!");
            },
            Failure::InputRead(path) => {
                line.append(" Failed to read from file ");
                line.append(path.as_str());
            },
            Failure::PatternCompile => {
                line.append(" invalid regular expression!");
            },
            Failure::OutputWrite(path) => {
                line.append(" Failed to write to file ");
                line.append(path.as_str());
            },
        }
        line
    }

    /// The line to put on the error stream for this failure, opened by the
    /// marker, plain or red as the terminal calls for.
    pub fn diagnostic(&self) -> (line: String)
        ensures
            line@ == self@.message(plain_marker()) || line@ == self@.message(red_marker()),
    {
        let marker = red_error_word();
        self.message(marker.as_str())
    }
}

} // verus!
