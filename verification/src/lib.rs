//! Find-and-replace over a whole text with a regular expression.
//!
//! The crate holds the decisions of a command-line tool that reads a file,
//! replaces every match of a pattern and writes the result to another file:
//! how the arguments are taken apart, what the substitution returns, which
//! step follows on which answer of the file system, and what is said when a
//! step fails. Reading and writing files is left to the program around it.

pub mod args;
pub mod engine;
pub mod failure;
pub mod run;
pub mod substitute;
