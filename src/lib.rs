//! A command that reads one line from standard input and creates a directory
//! named by that line, exactly as it was read.
//!
//! The library holds the command's decisions: what a read of standard input
//! leads to, and how the process ends once the directory creation has
//! returned. Reading, creating and exiting are left to the caller.
use vstd::prelude::*;

verus! {

/// What one read of a line from standard input gave.
#[derive(Debug, PartialEq, Eq)]
pub enum LineRead {
    /// The read returned. The text holds every character it captured, the
    /// line terminator included; it is empty when the stream was already at
    /// its end.
    Text(String),
    /// The stream could not be read.
    Unreadable,
}

/// What the command does after reading its input.
#[derive(Debug, PartialEq, Eq)]
pub enum Action {
    /// Create one directory at this path, whose parent must already exist.
    CreateDir(String),
    /// Stop the process with a failure: there was no line to act on.
    Abort,
}

/// How the single-level directory creation ended.
#[derive(Debug, Clone, Copy, PartialEq, Eq)]
pub enum CreateOutcome {
    Created,
    AlreadyExists,
    ParentMissing,
    PermissionDenied,
    OtherFailure,
}

/// The exit code of a normal termination.
pub const NORMAL_EXIT: i32 = 0;

/// True when a read gave no line: the stream failed, or ended before any
/// character came.
pub open spec fn no_line(read: LineRead) -> bool {
    match read {
        LineRead::Text(s) => s@.len() == 0,
        LineRead::Unreadable => true,
    }
}

/// The path that a read leads to: the captured text itself, untrimmed.
pub open spec fn path_of(read: LineRead) -> Seq<char>
    recommends
        !no_line(read),
{
    match read {
        LineRead::Text(s) => s@,
        LineRead::Unreadable => Seq::empty(),
    }
}

/// The exit code once the creation has returned: the outcome is discarded.
pub open spec fn exit_code_after(outcome: CreateOutcome) -> int {
    NORMAL_EXIT as int
}

/// Decides what to do with what standard input gave: abort when there is no
/// line, else create a directory whose path is the text verbatim.
pub fn plan(read: LineRead) -> (a: Action)
    ensures
        no_line(read) <==> a is Abort,
        !no_line(read) ==> (a matches Action::CreateDir(p) && p@ == path_of(read)),
{
    match read {
        LineRead::Text(s) => {
            if s.as_str().is_empty() {
                Action::Abort
            } else {
                Action::CreateDir(s)
            }
        },
        LineRead::Unreadable => Action::Abort,
    }
}

/// The exit code of the process once the creation has returned, whatever it
/// returned: a failed creation is not reported.
pub fn status_after_create(outcome: CreateOutcome) -> (code: i32)
    ensures
        code == exit_code_after(outcome),
        code == NORMAL_EXIT,
{
    NORMAL_EXIT
}

/// Running the command again on a path it has already created ends as the
/// first run did: no outcome of the creation, "already exists" included, is
/// seen in how the process ends.
pub proof fn lemma_outcome_unobserved(first: CreateOutcome, second: CreateOutcome)
    ensures
        exit_code_after(first) == exit_code_after(second),
        exit_code_after(second) == NORMAL_EXIT,
{
}

} // verus!
