//! The four values of an invocation.

use crate::failure::{Failure, FailureView};
use vstd::prelude::*;

verus! {

/// How many entries an invocation has: the program name and four values.
pub const ARGUMENT_COUNT: usize = 5;

/// The four values of an invocation, each owned by this record.
#[derive(Debug, Clone, PartialEq, Eq)]
pub struct Arguments {
    /// The regular expression to look for.
    pub pattern: String,
    /// The text that takes the place of each match.
    pub replace: String,
    /// The path of the file to read.
    pub input_file: String,
    /// The path of the file to write.
    pub output_file: String,
}

/// [`Arguments`] with each value as a sequence of characters.
pub struct ArgumentsView {
    pub pattern: Seq<char>,
    pub replace: Seq<char>,
    pub input_file: Seq<char>,
    pub output_file: Seq<char>,
}

impl View for Arguments {
    type V = ArgumentsView;

    open spec fn view(&self) -> ArgumentsView {
        ArgumentsView {
            pattern: self.pattern@,
            replace: self.replace@,
            input_file: self.input_file@,
            output_file: self.output_file@,
        }
    }
}

/// The entries of an argument list, each as a sequence of characters.
pub open spec fn texts(argv: Seq<String>) -> Seq<Seq<char>> {
    argv.map_values(|entry: String| entry@)
}

/// What an invocation of `argc` entries stands for: the entries at positions
/// one to four are the pattern, the replacement, the input path and the
/// output path, in that order; any other count is a usage error.
pub open spec fn parsed(argc: int, argv: Seq<Seq<char>>) -> Result<ArgumentsView, FailureView> {
    if argc == ARGUMENT_COUNT {
        Ok(
            ArgumentsView {
                pattern: argv[1],
                replace: argv[2],
                input_file: argv[3],
                output_file: argv[4],
            },
        )
    } else {
        Err(FailureView::Usage)
    }
}

/// [`parse_args`]'s result with the values as sequences of characters.
pub open spec fn parse_view(r: Result<Arguments, Failure>) -> Result<ArgumentsView, FailureView> {
    match r {
        Ok(args) => Ok(args@),
        Err(error) => Err(error@),
    }
}

/// Takes the four values out of an argument list whose first entry is the
/// program name. `argc` is the number of entries that the caller counted in
/// `argv`; a count of five must not overstate the list.
pub fn parse_args(argc: usize, argv: &Vec<String>) -> (r: Result<Arguments, Failure>)
    requires
        argc == ARGUMENT_COUNT ==> argv@.len() >= ARGUMENT_COUNT,
    ensures
        parse_view(r) == parsed(argc as int, texts(argv@)),
{
    if argc != ARGUMENT_COUNT {
        return Err(Failure::Usage);
    }
    Ok(
        Arguments {
            pattern: argv[1].clone(),
            replace: argv[2].clone(),
            input_file: argv[3].clone(),
            output_file: argv[4].clone(),
        },
    )
}

} // verus!
