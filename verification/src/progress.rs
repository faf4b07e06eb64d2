//! How a run reports progress.
//!
//! Exists so a caller can supply a live indicator that renders to users,
//! while silent or headless runs, and tests, use the no-op implementation.
//! Rendering is a collaborator's business and is not specified here: the
//! scheduler only promises when these hooks are invoked — the total once,
//! before any task starts, and one completion call per task.
use vstd::prelude::*;

use crate::outcome::TaskOutcome;

verus! {

/// The reporting capability the scheduler consumes.
pub trait Progress {
    /// Told the total number of eligible tasks, once, before work starts.
    fn set_num_tasks(&self, tasks: usize);

    /// Told each task's terminal outcome, exactly once per task.
    fn task_completed(&self, result: &TaskOutcome);
}

/// The silent reporter.
impl Progress for () {
    fn set_num_tasks(&self, _tasks: usize) {
    }

    fn task_completed(&self, _result: &TaskOutcome) {
    }
}

} // verus!
