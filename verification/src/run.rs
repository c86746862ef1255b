//! The course of a run: which step follows on which answer from outside.
//!
//! A run reads one file and writes one file, and neither is done here. The
//! program around this crate performs each [`Action`] that [`step`] hands
//! out and reports what came of it as the next [`Event`].

use crate::args::{parse_args, parsed, texts, Arguments, ArgumentsView, ARGUMENT_COUNT};
use crate::engine::compiles;
use crate::failure::{Failure, FailureView, EXIT_FAILURE, EXIT_SUCCESS};
use crate::substitute::{matches_somewhere, replace, replace_result, replaced};
use vstd::prelude::*;

verus! {

/// Where a run stands.
#[derive(Debug, Clone, PartialEq, Eq)]
pub enum Stage {
    /// Nothing has happened yet; the run waits for its invocation.
    Start,
    /// The arguments are taken apart; the run waits for the input's text.
    ArgsParsed(Arguments),
    /// The input is read and substituted; the run waits for the write.
    Substituted(Arguments),
    /// The run is over, with this exit code.
    Exit(i32),
}

/// What the outside reports to a run.
#[derive(Debug, Clone, PartialEq, Eq)]
pub enum Event {
    /// The process was started with these arguments, the program name first.
    Invoked(Vec<String>),
    /// The input file was read: its text, or `None` where that failed.
    InputRead(Option<String>),
    /// The output file was written, or, with `false`, could not be.
    OutputWritten(bool),
}

/// What a run asks the outside to do next.
#[derive(Debug, Clone, PartialEq, Eq)]
pub enum Action {
    /// Read the whole file at this path as text.
    Read(String),
    /// Make the text, the second value, the whole content of the file at the
    /// path, the first.
    Write(String, String),
    /// End the process: nothing failed.
    Succeed,
    /// Report the failure on the error stream and end the process.
    Fail(Failure),
}

/// A [`Stage`] over sequences of characters.
pub enum StageView {
    Start,
    ArgsParsed(ArgumentsView),
    Substituted(ArgumentsView),
    Exit(i32),
}

/// An [`Event`] over sequences of characters.
pub enum EventView {
    Invoked(Seq<Seq<char>>),
    InputRead(Option<Seq<char>>),
    OutputWritten(bool),
}

/// An [`Action`] over sequences of characters.
pub enum ActionView {
    Read(Seq<char>),
    Write(Seq<char>, Seq<char>),
    Succeed,
    Fail(FailureView),
}

impl View for Stage {
    type V = StageView;

    open spec fn view(&self) -> StageView {
        match self {
            Stage::Start => StageView::Start,
            Stage::ArgsParsed(args) => StageView::ArgsParsed(args@),
            Stage::Substituted(args) => StageView::Substituted(args@),
            Stage::Exit(code) => StageView::Exit(*code),
        }
    }
}

impl View for Event {
    type V = EventView;

    open spec fn view(&self) -> EventView {
        match self {
            Event::Invoked(argv) => EventView::Invoked(texts(argv@)),
            Event::InputRead(Some(data)) => EventView::InputRead(Some(data@)),
            Event::InputRead(None) => EventView::InputRead(None),
            Event::OutputWritten(done) => EventView::OutputWritten(*done),
        }
    }
}

impl View for Action {
    type V = ActionView;

    open spec fn view(&self) -> ActionView {
        match self {
            Action::Read(path) => ActionView::Read(path@),
            Action::Write(path, text) => ActionView::Write(path@, text@),
            Action::Succeed => ActionView::Succeed,
            Action::Fail(failure) => ActionView::Fail(failure@),
        }
    }
}

impl StageView {
    /// Whether the event is the one that a run at this stage waits for.
    pub open spec fn awaits(self, event: EventView) -> bool {
        match (self, event) {
            (StageView::Start, EventView::Invoked(_)) => true,
            (StageView::ArgsParsed(_), EventView::InputRead(_)) => true,
            (StageView::Substituted(_), EventView::OutputWritten(_)) => true,
            _ => false,
        }
    }
}

/// The stage that follows and the action to take when `event` reaches a run
/// at a `stage` that awaits it. Each failure ends the run at once, with the
/// failure exit code; only a write that went through ends it with success.
pub open spec fn next(stage: StageView, event: EventView) -> (StageView, ActionView) {
    match (stage, event) {
        (StageView::Start, EventView::Invoked(argv)) => match parsed(argv.len() as int, argv) {
            Ok(args) => (StageView::ArgsParsed(args), ActionView::Read(args.input_file)),
            Err(failure) => (StageView::Exit(EXIT_FAILURE), ActionView::Fail(failure)),
        },
        (StageView::ArgsParsed(args), EventView::InputRead(None)) => (
            StageView::Exit(EXIT_FAILURE),
            ActionView::Fail(FailureView::InputRead(args.input_file)),
        ),
        (StageView::ArgsParsed(args), EventView::InputRead(Some(data))) => match replace_result(
            args.pattern,
            args.replace,
            data,
        ) {
            Ok(text) => (StageView::Substituted(args), ActionView::Write(args.output_file, text)),
            Err(failure) => (StageView::Exit(EXIT_FAILURE), ActionView::Fail(failure)),
        },
        (StageView::Substituted(args), EventView::OutputWritten(done)) => if done {
            (StageView::Exit(EXIT_SUCCESS), ActionView::Succeed)
        } else {
            (
                StageView::Exit(EXIT_FAILURE),
                ActionView::Fail(FailureView::OutputWrite(args.output_file)),
            )
        },
        _ => arbitrary(),
    }
}

/// Takes a run one step on: from `stage`, on the `event` it waited for, to
/// the stage that follows, with the action to take next. Returns `None`
/// where the stage does not await the event.
pub fn step(stage: Stage, event: Event) -> (r: Option<(Stage, Action)>)
    ensures
        r is Some <==> stage@.awaits(event@),
        r matches Some(taken) ==> taken@ == next(stage@, event@),
{
    match stage {
        Stage::Start => match event {
            Event::Invoked(argv) => match parse_args(argv.len(), &argv) {
                Ok(args) => {
                    let path = args.input_file.clone();
                    Some((Stage::ArgsParsed(args), Action::Read(path)))
                },
                Err(failure) => Some((Stage::Exit(EXIT_FAILURE), Action::Fail(failure))),
            },
            _ => None,
        },
        Stage::ArgsParsed(args) => match event {
            Event::InputRead(None) => Some(
                (Stage::Exit(EXIT_FAILURE), Action::Fail(Failure::InputRead(args.input_file))),
            ),
            Event::InputRead(Some(data)) => match replace(
                args.pattern.as_str(),
                args.replace.as_str(),
                data.as_str(),
            ) {
                Ok(text) => {
                    let path = args.output_file.clone();
                    Some((Stage::Substituted(args), Action::Write(path, text)))
                },
                Err(failure) => Some((Stage::Exit(EXIT_FAILURE), Action::Fail(failure))),
            },
            _ => None,
        },
        Stage::Substituted(args) => match event {
            Event::OutputWritten(true) => Some((Stage::Exit(EXIT_SUCCESS), Action::Succeed)),
            Event::OutputWritten(false) => Some(
                (Stage::Exit(EXIT_FAILURE), Action::Fail(Failure::OutputWrite(args.output_file))),
            ),
            _ => None,
        },
        Stage::Exit(_) => None,
    }
}

/// The actions of a whole run, in order, and the stage it ends in, where
/// the process is started with `argv`, reading the input gives `input`
/// (`None` for a failed read) and `written` says whether the write goes
/// through. An answer that the run never asks for plays no part.
pub open spec fn course(argv: Seq<Seq<char>>, input: Option<Seq<char>>, written: bool) -> (
    Seq<ActionView>,
    StageView,
) {
    let (parsed_stage, first) = next(StageView::Start, EventView::Invoked(argv));
    if parsed_stage is Exit {
        (seq![first], parsed_stage)
    } else {
        let (substituted_stage, second) = next(parsed_stage, EventView::InputRead(input));
        if substituted_stage is Exit {
            (seq![first, second], substituted_stage)
        } else {
            let (last_stage, third) = next(substituted_stage, EventView::OutputWritten(written));
            (seq![first, second, third], last_stage)
        }
    }
}

/// Whether none of the actions asks for a write.
pub open spec fn writes_nothing(actions: Seq<ActionView>) -> bool {
    forall|i: int| 0 <= i < actions.len() ==> !(#[trigger] actions[i] is Write)
}

/// Every run ends, and with success exactly where the invocation has five
/// entries, the input could be read, the pattern compiles and the output
/// could be written; every other run ends with the failure exit code.
pub proof fn lemma_exit_code(argv: Seq<Seq<char>>, input: Option<Seq<char>>, written: bool)
    ensures
        ({
            let end = course(argv, input, written).1;
            &&& end == StageView::Exit(EXIT_SUCCESS) || end == StageView::Exit(EXIT_FAILURE)
            &&& end == StageView::Exit(EXIT_SUCCESS) <==> {
                &&& argv.len() == ARGUMENT_COUNT
                &&& input is Some
                &&& compiles(argv[1])
                &&& written
            }
        }),
{
}

/// A run with four values after the program name, a readable input and a
/// pattern that compiles, whose write goes through, reads the file named by
/// the third value, writes to the file named by the fourth the input's text
/// with every match of the pattern replaced, and exits with success.
pub proof fn lemma_run_writes_replaced_text(argv: Seq<Seq<char>>, data: Seq<char>)
    requires
        argv.len() == ARGUMENT_COUNT,
        compiles(argv[1]),
    ensures
        course(argv, Some(data), true) == (
            seq![
                ActionView::Read(argv[3]),
                ActionView::Write(argv[4], replaced(argv[1], argv[2], data)),
                ActionView::Succeed,
            ],
            StageView::Exit(EXIT_SUCCESS),
        ),
{
}

/// A run whose invocation does not have five entries fails at once: it asks
/// for no read and no write, and exits with the failure exit code.
pub proof fn lemma_wrong_count_writes_nothing(
    argv: Seq<Seq<char>>,
    input: Option<Seq<char>>,
    written: bool,
)
    requires
        argv.len() != ARGUMENT_COUNT,
    ensures
        course(argv, input, written) == (
            seq![ActionView::Fail(FailureView::Usage)],
            StageView::Exit(EXIT_FAILURE),
        ),
        writes_nothing(course(argv, input, written).0),
{
}

/// A run whose pattern does not compile asks for no write and exits with
/// the failure exit code, whatever the input holds.
pub proof fn lemma_bad_pattern_writes_nothing(
    argv: Seq<Seq<char>>,
    input: Option<Seq<char>>,
    written: bool,
)
    requires
        argv.len() == ARGUMENT_COUNT,
        !compiles(argv[1]),
    ensures
        course(argv, input, written).1 == StageView::Exit(EXIT_FAILURE),
        writes_nothing(course(argv, input, written).0),
        input is Some ==> course(argv, input, written).0.last() == ActionView::Fail(
            FailureView::PatternCompile,
        ),
{
}

/// A run whose pattern matches nowhere in the input writes the input's text
/// as it read it.
pub proof fn lemma_no_match_writes_input(argv: Seq<Seq<char>>, data: Seq<char>, written: bool)
    requires
        argv.len() == ARGUMENT_COUNT,
        compiles(argv[1]),
        !matches_somewhere(argv[1], argv[2], data),
    ensures
        course(argv, Some(data), written).0[1] == ActionView::Write(argv[4], data),
{
}

} // verus!
