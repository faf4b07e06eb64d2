//! The orchestrator: which files are eligible, and how many tasks may be
//! in flight at once.
//!
//! A run is one batch of independent tasks, one per regular file directly
//! under the source directory, driven with bounded parallelism. The
//! scheduler here is the decision core of that loop: the caller performs
//! the outside work (spawning and awaiting processes) and asks it, between
//! steps, what may happen next. Its contracts pin the accounting — a task
//! is started at most once per file, at no point are more than the limit
//! in flight, and every started task is reported exactly once.
use vstd::prelude::*;

use crate::outcome::TaskOutcome;
use crate::progress::Progress;

verus! {

/// One entry of the source directory listing, as the core reads it: its
/// name and whether it is a regular file.
pub struct DirEntry {
    /// The entry's name, relative to the source directory.
    pub name: String,
    /// Whether the entry is a regular file. Directories and other
    /// non-regular entries are not eligible.
    pub is_file: bool,
}

/// The names of the regular files among `s`, in listing order.
pub open spec fn regular_names(s: Seq<DirEntry>) -> Seq<Seq<char>>
    decreases s.len(),
{
    if s.len() == 0 {
        Seq::empty()
    } else if s[0].is_file {
        seq![s[0].name@] + regular_names(s.skip(1))
    } else {
        regular_names(s.skip(1))
    }
}

/// Select the units of work from a directory listing: exactly the regular
/// files, silently skipping directories and other non-regular entries, in
/// the order the listing yields them.
pub fn eligible_files(entries: &Vec<DirEntry>) -> (r: Vec<String>)
    ensures
        r.deep_view() == regular_names(entries@),
{
    let ghost all = entries@;
    let mut r: Vec<String> = Vec::new();
    proof {
        assert(all.skip(0) =~= all);
        assert(r.deep_view() + regular_names(all) =~= regular_names(all));
    }
    let mut i: usize = 0;
    while i < entries.len()
        invariant
            i <= entries.len(),
            all == entries@,
            r.deep_view() + regular_names(all.skip(i as int)) == regular_names(all),
        decreases entries.len() - i,
    {
        let ghost prev = r.deep_view();
        let ghost s = all.skip(i as int);
        if entries[i].is_file {
            r.push(entries[i].name.clone());
            proof {
                assert(s[0] == all[i as int]);
                assert(s.skip(1) =~= all.skip(i + 1));
                assert(regular_names(s) == seq![all[i as int].name@] + regular_names(
                    all.skip(i + 1),
                ));
                assert(r.deep_view() =~= prev + seq![all[i as int].name@]);
                assert((prev + seq![all[i as int].name@]) + regular_names(all.skip(i + 1)) =~= prev
                    + (seq![all[i as int].name@] + regular_names(all.skip(i + 1))));
            }
        } else {
            proof {
                assert(s[0] == all[i as int]);
                assert(s.skip(1) =~= all.skip(i + 1));
                assert(regular_names(s) == regular_names(all.skip(i + 1)));
            }
        }
        i = i + 1;
    }
    proof {
        assert(all.skip(entries@.len() as int) =~= Seq::<DirEntry>::empty());
        assert(r.deep_view() + Seq::<Seq<char>>::empty() =~= r.deep_view());
    }
    r
}

/// A name comes out of the selection exactly when some regular file of the
/// listing bears it: every regular file is represented, and nothing else
/// creates an entry.
pub proof fn lemma_regular_names_membership(s: Seq<DirEntry>, n: Seq<char>)
    ensures
        regular_names(s).contains(n) <==> exists|i: int|
            0 <= i < s.len() && s[i].is_file && s[i].name@ == n,
    decreases s.len(),
{
    if s.len() == 0 {
    } else {
        lemma_regular_names_membership(s.skip(1), n);
        assert(forall|i: int|
            0 <= i < s.skip(1).len() ==> #[trigger] s.skip(1)[i] == s[i + 1]);
        if s[0].is_file {
            assert(regular_names(s) == seq![s[0].name@] + regular_names(s.skip(1)));
            if regular_names(s).contains(n) {
                let j = choose|j: int|
                    0 <= j < regular_names(s).len() && regular_names(s)[j] == n;
                if j == 0 {
                    assert(s[0].is_file && s[0].name@ == n);
                } else {
                    assert(regular_names(s.skip(1))[j - 1] == n);
                    assert(regular_names(s.skip(1)).contains(n));
                }
            }
            if exists|i: int| 0 <= i < s.len() && s[i].is_file && s[i].name@ == n {
                let i = choose|i: int| 0 <= i < s.len() && s[i].is_file && s[i].name@ == n;
                if i == 0 {
                    assert(regular_names(s)[0] == n);
                } else {
                    assert(s.skip(1)[i - 1].is_file && s.skip(1)[i - 1].name@ == n);
                    assert(regular_names(s.skip(1)).contains(n));
                    let j = choose|j: int|
                        0 <= j < regular_names(s.skip(1)).len() && regular_names(s.skip(1))[j]
                            == n;
                    assert(regular_names(s)[j + 1] == n);
                }
            }
        } else {
            assert(regular_names(s) == regular_names(s.skip(1)));
            if exists|i: int| 0 <= i < s.len() && s[i].is_file && s[i].name@ == n {
                let i = choose|i: int| 0 <= i < s.len() && s[i].is_file && s[i].name@ == n;
                assert(i != 0);
                assert(s.skip(1)[i - 1].is_file && s.skip(1)[i - 1].name@ == n);
            }
            if regular_names(s.skip(1)).contains(n) {
                let i = choose|i: int|
                    0 <= i < s.skip(1).len() && s.skip(1)[i].is_file && s.skip(1)[i].name@ == n;
                assert(s[i + 1].is_file && s[i + 1].name@ == n);
            }
        }
    }
}

/// The engine for one run: the source directory and the concurrency
/// ceiling. The recreate and retry settings are accepted so a caller can
/// carry them, but no behaviour is attached to them yet.
pub struct Each {
    /// The directory whose direct regular-file children are the units of
    /// work.
    pub source_dir: String,
    /// The concurrency ceiling: how many tasks may be in flight at once.
    pub num_processes: usize,
}

impl Each {
    /// A run over `source_dir` with at most `num_processes` tasks in
    /// flight. The recreate and retry settings are accepted but inert.
    pub fn new(source_dir: String, num_processes: usize, _recreate: bool, _retries: u32) -> (r:
        Self)
        requires
            num_processes >= 1,
        ensures
            r.source_dir == source_dir,
            r.num_processes == num_processes,
    {
        Each { source_dir, num_processes }
    }

    /// The scheduler for this run, once the eligible files are known.
    /// Announces the total to the progress reporter, once, before any task
    /// starts.
    pub fn scheduler<P: Progress>(&self, num_tasks: usize, progress: &P) -> (s: Scheduler)
        requires
            self.num_processes >= 1,
        ensures
            s.wf(),
            s.slots@.len() == num_tasks,
            s.limit == self.num_processes,
            s.started == 0,
            s.finished == 0,
            forall|i: int| 0 <= i < num_tasks ==> (#[trigger] s.slots@[i]) is NotStarted,
    {
        Scheduler::new(num_tasks, self.num_processes, progress)
    }
}

/// What has happened, so far, to the task of one eligible file.
#[derive(Debug)]
pub enum SlotState {
    /// The task has not been admitted yet.
    NotStarted,
    /// The task has been admitted and has not reported an outcome yet.
    Running,
    /// The task is over; this is its one reported outcome.
    Done(TaskOutcome),
}

/// How many slots of `s` hold a reported outcome.
pub open spec fn count_done(s: Seq<SlotState>) -> int
    decreases s.len(),
{
    if s.len() == 0 {
        0
    } else {
        (if s[0] is Done {
            1int
        } else {
            0int
        }) + count_done(s.skip(1))
    }
}

/// How many slots of `s` hold a running task.
pub open spec fn count_running(s: Seq<SlotState>) -> int
    decreases s.len(),
{
    if s.len() == 0 {
        0
    } else {
        (if s[0] is Running {
            1int
        } else {
            0int
        }) + count_running(s.skip(1))
    }
}

/// How many slots of `s` still await admission.
pub open spec fn count_not_started(s: Seq<SlotState>) -> int
    decreases s.len(),
{
    if s.len() == 0 {
        0
    } else {
        (if s[0] is NotStarted {
            1int
        } else {
            0int
        }) + count_not_started(s.skip(1))
    }
}

pub proof fn lemma_count_done_bounds(s: Seq<SlotState>)
    ensures
        0 <= count_done(s) <= s.len(),
    decreases s.len(),
{
    if s.len() > 0 {
        lemma_count_done_bounds(s.skip(1));
    }
}

/// Changing one slot changes the outcome count by what left and what came.
pub proof fn lemma_count_done_update(s: Seq<SlotState>, i: int, v: SlotState)
    requires
        0 <= i < s.len(),
    ensures
        count_done(s.update(i, v)) == count_done(s) - (if s[i] is Done {
            1int
        } else {
            0int
        }) + (if v is Done {
            1int
        } else {
            0int
        }),
    decreases s.len(),
{
    let t = s.update(i, v);
    if i == 0 {
        assert(t[0] == v);
        assert(t.skip(1) =~= s.skip(1));
    } else {
        assert(t[0] == s[0]);
        assert(t.skip(1) =~= s.skip(1).update(i - 1, v));
        lemma_count_done_update(s.skip(1), i - 1, v);
    }
}

/// When no slot from `m` on holds an outcome, at most `m` outcomes exist.
pub proof fn lemma_count_done_prefix(s: Seq<SlotState>, m: int)
    requires
        0 <= m <= s.len(),
        forall|i: int| m <= i < s.len() ==> !((#[trigger] s[i]) is Done),
    ensures
        count_done(s) <= m,
    decreases s.len(),
{
    if s.len() > 0 {
        let rest = s.skip(1);
        assert(forall|i: int| 0 <= i < rest.len() ==> #[trigger] rest[i] == s[i + 1]);
        if m == 0 {
            lemma_count_done_prefix(rest, 0);
        } else {
            lemma_count_done_prefix(rest, m - 1);
        }
    }
}

/// When some slot below `k` holds no outcome and none from `k` on does,
/// fewer than `k` outcomes exist.
pub proof fn lemma_count_done_missing(s: Seq<SlotState>, k: int, j: int)
    requires
        0 <= j < k <= s.len(),
        !(s[j] is Done),
        forall|i: int| k <= i < s.len() ==> !((#[trigger] s[i]) is Done),
    ensures
        count_done(s) <= k - 1,
    decreases s.len(),
{
    let rest = s.skip(1);
    assert(forall|i: int| 0 <= i < rest.len() ==> #[trigger] rest[i] == s[i + 1]);
    if j == 0 {
        lemma_count_done_prefix(rest, k - 1);
    } else {
        lemma_count_done_missing(rest, k - 1, j - 1);
    }
}

/// A full outcome count means every slot holds an outcome.
pub proof fn lemma_count_done_full(s: Seq<SlotState>)
    requires
        count_done(s) == s.len(),
    ensures
        forall|i: int| 0 <= i < s.len() ==> (#[trigger] s[i]) is Done,
    decreases s.len(),
{
    if s.len() > 0 {
        let rest = s.skip(1);
        lemma_count_done_bounds(rest);
        assert(s[0] is Done);
        lemma_count_done_full(rest);
        assert(forall|i: int| 1 <= i < s.len() ==> #[trigger] s[i] == rest[i - 1]);
    }
}

/// The three states partition the slots.
pub proof fn lemma_counts_partition(s: Seq<SlotState>)
    ensures
        count_not_started(s) + count_running(s) + count_done(s) == s.len(),
    decreases s.len(),
{
    if s.len() > 0 {
        lemma_counts_partition(s.skip(1));
    }
}

/// When exactly the slots below `k` have been admitted, exactly the slots
/// from `k` on await admission.
pub proof fn lemma_count_not_started_exact(s: Seq<SlotState>, k: int)
    requires
        0 <= k <= s.len(),
        forall|i: int| 0 <= i < k ==> !((#[trigger] s[i]) is NotStarted),
        forall|i: int| k <= i < s.len() ==> (#[trigger] s[i]) is NotStarted,
    ensures
        count_not_started(s) == s.len() - k,
    decreases s.len(),
{
    if s.len() > 0 {
        let rest = s.skip(1);
        assert(forall|i: int| 0 <= i < rest.len() ==> #[trigger] rest[i] == s[i + 1]);
        if k == 0 {
            lemma_count_not_started_exact(rest, 0);
        } else {
            lemma_count_not_started_exact(rest, k - 1);
        }
    }
}

/// The accounting of one run's batch: one slot per eligible file, the
/// concurrency ceiling, and how far admission has proceeded. The driver
/// loop owns the outside work; between steps it consults and updates this
/// state, and the contracts here bound what any such loop can do: each
/// file's task is admitted at most once, at no point are more than
/// `limit` slots running, and each admitted task reports exactly once.
pub struct Scheduler {
    /// The concurrency ceiling.
    pub limit: usize,
    /// How many tasks have been admitted so far; the files are admitted
    /// in order, so these are exactly the slots below `started`.
    pub started: usize,
    /// How many tasks have reported an outcome so far.
    pub finished: usize,
    /// One slot per eligible file, in the order the files were selected.
    pub slots: Vec<SlotState>,
}

impl Scheduler {
    /// The state is sound: admission proceeds in slot order, the counters
    /// agree with the slots, finishes never exceed starts, and — the
    /// concurrency ceiling — at no point are more than `limit` tasks in
    /// flight.
    pub open spec fn wf(self) -> bool {
        &&& 1 <= self.limit
        &&& self.finished == count_done(self.slots@)
        &&& self.finished <= self.started <= self.slots@.len()
        &&& self.started - self.finished <= self.limit
        &&& forall|i: int| 0 <= i < self.started ==> !((#[trigger] self.slots@[i]) is NotStarted)
        &&& forall|i: int|
            self.started <= i < self.slots@.len() ==> (#[trigger] self.slots@[i]) is NotStarted
    }

    /// How many tasks are in flight: admitted and not yet reported.
    pub open spec fn in_flight(self) -> int {
        self.started - self.finished
    }

    /// Whether one more task may be admitted now.
    pub open spec fn can_start_spec(self) -> bool {
        self.started < self.slots@.len() && self.in_flight() < self.limit
    }

    /// A fresh scheduler for `num_tasks` tasks under ceiling `limit`.
    /// Announces the total to the progress reporter, once, before any
    /// task starts.
    pub fn new<P: Progress>(num_tasks: usize, limit: usize, progress: &P) -> (s: Self)
        requires
            limit >= 1,
        ensures
            s.wf(),
            s.slots@.len() == num_tasks,
            s.limit == limit,
            s.started == 0,
            s.finished == 0,
            forall|i: int| 0 <= i < num_tasks ==> (#[trigger] s.slots@[i]) is NotStarted,
    {
        progress.set_num_tasks(num_tasks);
        let mut slots: Vec<SlotState> = Vec::new();
        while slots.len() < num_tasks
            invariant
                slots@.len() <= num_tasks,
                forall|i: int| 0 <= i < slots@.len() ==> (#[trigger] slots@[i]) is NotStarted,
            decreases num_tasks - slots@.len(),
        {
            slots.push(SlotState::NotStarted);
        }
        proof {
            lemma_count_done_prefix(slots@, 0);
            lemma_count_done_bounds(slots@);
        }
        Scheduler { limit, started: 0, finished: 0, slots }
    }

    /// Whether one more task may be admitted now: an unstarted slot
    /// exists and a slot under the ceiling is free.
    pub fn can_start(&self) -> (b: bool)
        requires
            self.wf(),
        ensures
            b == self.can_start_spec(),
    {
        self.started < self.slots.len() && self.started - self.finished < self.limit
    }

    /// Admit the next task and say which file it is for: the files are
    /// admitted in order, each exactly once, and the admitted slot goes
    /// from awaiting admission to running.
    pub fn start_next(&mut self) -> (i: usize)
        requires
            old(self).wf(),
            old(self).can_start_spec(),
        ensures
            final(self).wf(),
            i == old(self).started,
            i < old(self).slots@.len(),
            old(self).slots@[i as int] is NotStarted,
            final(self).slots@ == old(self).slots@.update(i as int, SlotState::Running),
            final(self).started == old(self).started + 1,
            final(self).finished == old(self).finished,
            final(self).limit == old(self).limit,
            final(self).in_flight() == old(self).in_flight() + 1,
    {
        let i = self.started;
        let n = self.slots.len();
        assert(i < n);
        self.slots.set(i, SlotState::Running);
        self.started = i + 1;
        proof {
            lemma_count_done_update(old(self).slots@, i as int, SlotState::Running);
        }
        i
    }

    /// Whether the task of slot `i` is running right now.
    pub fn is_running(&self, i: usize) -> (b: bool)
        ensures
            b == (i < self.slots@.len() && self.slots@[i as int] is Running),
    {
        i < self.slots.len() && matches!(self.slots[i], SlotState::Running)
    }

    /// Record the terminal outcome of the running task of slot `i` and
    /// tell the progress reporter: exactly one report per admitted task,
    /// whatever the outcome was.
    pub fn task_completed<P: Progress>(&mut self, i: usize, outcome: TaskOutcome, progress: &P)
        requires
            old(self).wf(),
            i < old(self).slots@.len(),
            old(self).slots@[i as int] is Running,
        ensures
            final(self).wf(),
            final(self).slots@ == old(self).slots@.update(
                i as int,
                SlotState::Done(outcome),
            ),
            final(self).started == old(self).started,
            final(self).finished == old(self).finished + 1,
            final(self).limit == old(self).limit,
            final(self).in_flight() == old(self).in_flight() - 1,
    {
        progress.task_completed(&outcome);
        proof {
            lemma_count_done_update(old(self).slots@, i as int, SlotState::Done(outcome));
            lemma_count_done_missing(old(self).slots@, old(self).started as int, i as int);
        }
        self.slots.set(i, SlotState::Done(outcome));
        self.finished = self.finished + 1;
    }

    /// Whether the batch is over: every task has reported an outcome.
    pub fn is_done(&self) -> (b: bool)
        requires
            self.wf(),
        ensures
            b == (self.finished == self.slots@.len()),
            b ==> self.started == self.slots@.len() && self.in_flight() == 0,
    {
        self.finished == self.slots.len()
    }

    /// How many tasks are in flight right now.
    pub fn in_flight_now(&self) -> (n: usize)
        requires
            self.wf(),
        ensures
            n == self.in_flight(),
    {
        self.started - self.finished
    }
}

/// The concurrency ceiling is respected: in every sound scheduler state,
/// whatever the run has done so far, the slots running simultaneously are
/// exactly the tasks in flight, and they never exceed the ceiling.
pub proof fn lemma_concurrency_ceiling(s: Scheduler)
    requires
        s.wf(),
    ensures
        count_running(s.slots@) == s.in_flight(),
        count_running(s.slots@) <= s.limit,
{
    lemma_counts_partition(s.slots@);
    lemma_count_not_started_exact(s.slots@, s.started as int);
}

/// A run over an empty batch starts nothing: with no eligible files no
/// task can ever be admitted, nothing is in flight, and no outcome is
/// ever recorded.
pub proof fn lemma_empty_batch_starts_nothing(s: Scheduler)
    requires
        s.wf(),
        s.slots@.len() == 0,
    ensures
        !s.can_start_spec(),
        s.in_flight() == 0,
        s.finished == 0,
{
}

/// A batch that is not over can always move: either a new task may be
/// admitted right away, or some task is in flight and its report can be
/// awaited. A driver loop over this state is therefore never stuck.
pub proof fn lemma_batch_makes_progress(s: Scheduler)
    requires
        s.wf(),
        s.finished < s.slots@.len(),
    ensures
        s.can_start_spec() || s.in_flight() > 0,
{
}

/// A finished batch reported every eligible file: each file's slot holds
/// exactly one outcome, whatever that outcome was.
pub proof fn lemma_done_batch_reports_every_file(s: Scheduler)
    requires
        s.wf(),
        s.finished == s.slots@.len(),
    ensures
        forall|i: int| 0 <= i < s.slots@.len() ==> (#[trigger] s.slots@[i]) is Done,
{
    lemma_count_done_full(s.slots@);
}

} // verus!
