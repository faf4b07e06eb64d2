//! What one task reports when it is over.
use vstd::prelude::*;

verus! {

/// An infrastructure failure scoped to a single file's task: it becomes
/// that task's outcome and does not abort the tasks of other files.
#[derive(Debug)]
pub enum TaskError {
    /// Filename mode needs the file's path as text, and this path is not
    /// representable as text.
    UnsupportedPath,
    /// A step outside this core failed before the task could report a
    /// process outcome: reading the file's metadata, creating its result
    /// location, opening the file, or spawning the process. The text is the
    /// reported reason.
    Io(String),
}

/// The terminal report of one task: one is produced per processed file.
///
/// A process that ran to termination is `Completed`, whatever its exit
/// status: judging the status is the reporting layer's business, not this
/// core's. Only a task that could not produce a process outcome at all is
/// `Failed`.
#[derive(Debug)]
pub enum TaskOutcome {
    /// The process terminated; the payload is its exit status as the
    /// platform reports it.
    Completed(i32),
    /// The task could not produce a process outcome.
    Failed(TaskError),
}

} // verus!
