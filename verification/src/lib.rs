//! Startup and execution-mode orchestration for the `brush` shell front end.
//!
//! Given the tokens of the command line and a few facts about the process,
//! this library decides how the shell consumes its input, with which
//! options it is created and on which input backend, and with which code
//! the process exits. It performs no input or output itself: the program
//! around it parses the flags, creates the shell and runs it, and reports
//! back what came of it.
//!
//! - [`tokens`] prepares the raw command line for the flag parser and finds
//!   the tokens behind a `--`.
//! - [`args`] holds the parsed command line and takes those tokens in.
//! - [`backend`] chooses the input backend.
//! - [`options`] composes the options the shell is created with.
//! - [`dispatch`] chooses the execution mode.
//! - [`run`] takes one run from the trace configuration to the exit code.
//! - [`panic_guard`] plans what a panic does to the terminal.
//! - [`events`] holds the trace configuration.

pub mod args;
pub mod backend;
pub mod dispatch;
pub mod events;
pub mod options;
pub mod panic_guard;
pub mod run;
pub mod text;
pub mod tokens;
