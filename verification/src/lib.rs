//! Run one shell command over every regular file of a directory, a bounded
//! number of invocations at a time, capturing each invocation's output.
//!
//! This crate holds the verified core: input-mode parsing, command
//! construction (including `{}` substitution), the filter that selects the
//! regular files of a directory listing, result-path derivation, and the
//! bounded-concurrency scheduler. The surrounding process and filesystem
//! plumbing is ordinary unverified code that calls into this core.
use vstd::prelude::*;

pub mod command;
pub mod input_mode;
pub mod outcome;
pub mod progress;
pub mod scheduler;
pub mod sink;
pub mod template;

pub use command::FilenameRunner;
pub use command::Invocation;
pub use command::Runner;
pub use command::StdinRunner;
pub use input_mode::InputMode;
pub use outcome::TaskError;
pub use outcome::TaskOutcome;
pub use progress::Progress;
pub use scheduler::DirEntry;
pub use scheduler::Each;
pub use scheduler::Scheduler;
pub use scheduler::SlotState;
pub use scheduler::eligible_files;
pub use sink::ResultLocation;
pub use sink::result_location;

verus! {

/// Configuration for one run, handed in already resolved: parsing
/// command-line text, defaulting the destination, and looking up the
/// environment's shell are collaborators' business, not this core's.
pub struct Config {
    /// The command text; in filename mode it may contain the `{}` token.
    pub command: String,
    /// The shell that interprets the command, invoked as `shell -c <text>`.
    pub shell: String,
    /// The directory whose direct regular-file children are the units of
    /// work.
    pub source_dir: String,
    /// The root under which each file's result location is created.
    pub destination_dir: String,
    /// The concurrency ceiling: a positive number of simultaneous tasks.
    pub num_processes: usize,
    /// How the command gets at each input file.
    pub input_mode: InputMode,
    /// Accepted but inert: no behaviour is attached to it yet.
    pub recreate: bool,
    /// Accepted but inert: no behaviour is attached to it yet.
    pub retries: u32,
}

impl Config {
    /// The configuration is sound: the concurrency ceiling is positive.
    pub open spec fn wf(self) -> bool {
        self.num_processes >= 1
    }
}

/// The decision core of starting a run: the engine carries the source
/// directory and the ceiling, and the input mode selects which of the two
/// delivery strategies builds every command, once for the whole run.
pub fn prepare_run(config: Config) -> (r: (Each, Runner))
    requires
        config.wf(),
    ensures
        r.0.source_dir == config.source_dir,
        r.0.num_processes == config.num_processes,
        config.input_mode is Stdin ==> (r.1 matches Runner::Stdin(x) && x.shell == config.shell
            && x.command == config.command),
        config.input_mode is Filename ==> (r.1 matches Runner::Filename(x) && x.shell
            == config.shell && x.command == config.command),
{
    let each = Each::new(
        config.source_dir,
        config.num_processes,
        config.recreate,
        config.retries,
    );
    let runner = Runner::for_mode(config.input_mode, config.shell, config.command);
    (each, runner)
}

/// The destination proposed when none is given: the source directory's
/// path with `-results` appended to its name.
pub fn default_destination_dir(source_dir: &str) -> (r: String)
    ensures
        r@ == source_dir@ + "-results"@,
{
    let mut r = source_dir.to_owned();
    r.append("-results");
    r
}

} // verus!
