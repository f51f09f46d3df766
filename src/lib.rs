//! Status-bar metrics engine: frame animation, metric sampling, snapshot
//! publication and status-line composition, with the decisions verified.
use vstd::prelude::*;

pub mod compose;
pub mod emojis;
pub mod metrics;
pub mod read_line;
pub mod render;
pub mod scheduler;
pub mod snapshot;
pub mod text;
pub mod xsetroot;

use crate::read_line::ReadLineError;

verus! {

/// Why a metric could not be sampled.
#[derive(Debug, Clone, Copy, PartialEq, Eq, Structural)]
pub enum CommonError {
    /// A file or process was not available.
    Io,
    /// Output that is not valid UTF-8.
    Utf8,
    /// A number that does not parse.
    ParseInt,
    /// A command that did not succeed; its exit code, if it had one.
    UnsuccessfullShell(Option<i32>),
    /// A value that does not fit its fixed-size buffer.
    Capacity,
    /// A line that could not be read.
    ReadLine(ReadLineError),
}

/// What a finished command gave: its exit code (none when a signal ended it)
/// and its standard output as text (none when it was not valid UTF-8).
pub struct CommandOutput {
    pub code: Option<i32>,
    pub stdout: Option<String>,
}

/// A source of one part of the status line.
pub trait Metric {
    /// The metric's name.
    spec fn spec_name(&self) -> Seq<char>;

    /// A stable name, for diagnostics.
    fn name(&self) -> (r: &'static str)
        ensures
            r@ == self.spec_name(),
    ;
}

} // verus!
