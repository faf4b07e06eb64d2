use reach::Config;
use reach::DirEntry;
use reach::Each;
use reach::InputMode;
use reach::Runner;
use reach::Scheduler;
use reach::SlotState;
use reach::TaskError;
use reach::TaskOutcome;
use reach::eligible_files;
use reach::prepare_run;
use std::cell::RefCell;

fn entry(name: &str, is_file: bool) -> DirEntry {
    DirEntry { name: String::from(name), is_file }
}

#[test]
fn eligible_files_keeps_regular_files_only() {
    let entries = vec![
        entry("file1.txt", true),
        entry("subdir", false),
        entry("file2.txt", true),
        entry("socket", false),
    ];
    let files = eligible_files(&entries);
    assert_eq!(files, vec![String::from("file1.txt"), String::from("file2.txt")]);
}

#[test]
fn empty_source_directory_yields_no_tasks() {
    // An empty batch succeeds and admits no task at all, in either mode.
    let entries: Vec<DirEntry> = Vec::new();
    let files = eligible_files(&entries);
    assert_eq!(files, Vec::<String>::new());

    for mode in [InputMode::Stdin, InputMode::Filename] {
        let each = Each::new(String::from("/src"), 4, false, 0);
        let scheduler = each.scheduler(files.len(), &());
        assert!(!scheduler.can_start());
        assert!(scheduler.is_done());
        assert_eq!(scheduler.in_flight_now(), 0);
        // The runner exists but is never asked for a command.
        let _ = Runner::for_mode(mode, String::from("/bin/sh"), String::from("cat"));
    }
}

#[test]
fn ceiling_of_one_serialises_the_batch() {
    let each = Each::new(String::from("/src"), 1, false, 0);
    let mut s = each.scheduler(2, &());

    assert!(s.can_start());
    let first = s.start_next();
    assert_eq!(first, 0);
    // One task in flight and the ceiling is one: nothing more may start.
    assert_eq!(s.in_flight_now(), 1);
    assert!(!s.can_start());

    s.task_completed(first, TaskOutcome::Completed(0), &());
    assert!(s.can_start());
    let second = s.start_next();
    assert_eq!(second, 1);
    assert!(!s.can_start());

    s.task_completed(second, TaskOutcome::Completed(1), &());
    assert!(s.is_done());
    assert_eq!(s.in_flight_now(), 0);
}

#[test]
fn ceiling_caps_in_flight_tasks() {
    let mut s = Scheduler::new(5, 2, &());
    assert!(s.can_start());
    let a = s.start_next();
    assert!(s.can_start());
    let b = s.start_next();
    assert!(s.is_running(a) && s.is_running(b));
    // Two in flight under a ceiling of two: the third must wait.
    assert_eq!(s.in_flight_now(), 2);
    assert!(!s.can_start());
    s.task_completed(a, TaskOutcome::Completed(0), &());
    assert!(!s.is_running(a));
    assert!(s.can_start());
}

#[test]
fn failed_tasks_are_reported_like_completed_ones() {
    let mut s = Scheduler::new(2, 2, &());
    let a = s.start_next();
    let b = s.start_next();
    // A per-file failure is an outcome, not an abort: the batch goes on.
    s.task_completed(
        a,
        TaskOutcome::Failed(TaskError::Io(String::from("spawn refused"))),
        &(),
    );
    s.task_completed(b, TaskOutcome::Completed(7), &());
    assert!(s.is_done());
    assert_eq!(s.slots.len(), 2);
    assert!(matches!(
        s.slots[a],
        SlotState::Done(TaskOutcome::Failed(TaskError::Io(_)))
    ));
    assert!(matches!(s.slots[b], SlotState::Done(TaskOutcome::Completed(7))));
}

#[test]
fn prepare_run_selects_the_configured_strategy() {
    let config = Config {
        command: String::from("cat"),
        shell: String::from("/bin/sh"),
        source_dir: String::from("/src"),
        destination_dir: String::from("/dest"),
        num_processes: 3,
        input_mode: InputMode::Stdin,
        recreate: false,
        retries: 0,
    };
    let (each, runner) = prepare_run(config);
    assert_eq!(each.source_dir, "/src");
    assert_eq!(each.num_processes, 3);
    assert!(matches!(runner, Runner::Stdin(_)));

    let config = Config {
        command: String::from("echo -n {}"),
        shell: String::from("/bin/sh"),
        source_dir: String::from("/src"),
        destination_dir: String::from("/dest"),
        num_processes: 1,
        input_mode: InputMode::Filename,
        recreate: true,
        retries: 2,
    };
    let (_, runner) = prepare_run(config);
    assert!(matches!(runner, Runner::Filename(_)));
}

/// Counts what the scheduler tells a reporter.
struct CountingProgress {
    totals: RefCell<Vec<usize>>,
    completions: RefCell<usize>,
}

impl reach::Progress for CountingProgress {
    fn set_num_tasks(&self, tasks: usize) {
        self.totals.borrow_mut().push(tasks);
    }

    fn task_completed(&self, _result: &TaskOutcome) {
        *self.completions.borrow_mut() += 1;
    }
}

#[test]
fn progress_hears_total_once_and_each_completion() {
    let progress = CountingProgress {
        totals: RefCell::new(Vec::new()),
        completions: RefCell::new(0),
    };
    let mut s = Scheduler::new(3, 2, &progress);
    // The total is announced once, before any task starts.
    assert_eq!(*progress.totals.borrow(), vec![3]);

    let a = s.start_next();
    s.task_completed(a, TaskOutcome::Completed(0), &progress);
    let b = s.start_next();
    let c = s.start_next();
    // Completion order is unconstrained: the later slot may report first.
    s.task_completed(c, TaskOutcome::Completed(0), &progress);
    s.task_completed(b, TaskOutcome::Completed(1), &progress);

    assert!(s.is_done());
    assert_eq!(*progress.completions.borrow(), 3);
    assert_eq!(*progress.totals.borrow(), vec![3]);
}
