//! Lines that the plugin prints on the console of the q process.

use vstd::prelude::*;

verus! {

/// The console stream that a line goes to.
#[derive(Clone, Copy, Debug, PartialEq, Eq, Structural)]
pub enum Stream {
    Stdout,
    Stderr,
}

/// One line to print, without its line break.
#[derive(Debug)]
pub struct LogLine {
    pub stream: Stream,
    pub text: String,
}

/// What a [`LogLine`] says.
pub struct LogLineView {
    pub stream: Stream,
    pub text: Seq<char>,
}

impl View for LogLine {
    type V = LogLineView;

    open spec fn view(&self) -> LogLineView {
        LogLineView { stream: self.stream, text: self.text@ }
    }
}

/// A line on standard output.
pub open spec fn out_line(text: Seq<char>) -> LogLineView {
    LogLineView { stream: Stream::Stdout, text }
}

/// A line on standard error.
pub open spec fn err_line(text: Seq<char>) -> LogLineView {
    LogLineView { stream: Stream::Stderr, text }
}

/// The line of an optional report, if there is one.
pub open spec fn report_view(report: Option<LogLine>) -> Option<LogLineView> {
    match report {
        Some(line) => Some(line@),
        None => None,
    }
}

/// The outcome of an outside operation, with the text of its error.
pub open spec fn outcome_view(outcome: Result<(), String>) -> Result<(), Seq<char>> {
    match outcome {
        Ok(()) => Ok(()),
        Err(e) => Err(e@),
    }
}

impl LogLine {
    /// A line for standard output.
    pub fn to_stdout(text: String) -> (line: LogLine)
        ensures
            line@ == out_line(text@),
    {
        LogLine { stream: Stream::Stdout, text }
    }

    /// A line for standard error.
    pub fn to_stderr(text: String) -> (line: LogLine)
        ensures
            line@ == err_line(text@),
    {
        LogLine { stream: Stream::Stderr, text }
    }
}

} // verus!
