//! The scatter-gather side: classification of single probes, aggregation
//! of whole batches, and the counting admission gate.

use exa::driver::Exa;
use exa::file::{File, Stat};
use exa::gate::{Gate, ceiling_for, default_ceiling};
use exa::options::{DirAction, Options, RecurseOptions, ViewKind};
use exa::probe::{classify_probe, StatResult};

fn plain_options() -> Options {
    Options { dir_action: DirAction::List, view_kind: ViewKind::Lines }
}

fn file_outcome(path: &str) -> StatResult {
    classify_probe(
        path.to_string(),
        Some(Stat { is_dir: false, is_link: false }),
        false,
    )
}

fn dir_outcome(path: &str) -> StatResult {
    classify_probe(
        path.to_string(),
        Some(Stat { is_dir: true, is_link: false }),
        false,
    )
}

#[test]
fn classify_regular_file() {
    match file_outcome("a.txt") {
        StatResult::File(f) => {
            assert_eq!(f.path, "a.txt");
            assert!(!f.is_dir);
            assert!(!f.as_file);
        }
        _ => panic!("a regular file must resolve as a file"),
    }
}

#[test]
fn classify_directory_pending() {
    match dir_outcome("dir1") {
        StatResult::Path(p) => assert_eq!(p, "dir1"),
        _ => panic!("a directory must become pending outside tree mode"),
    }
}

#[test]
fn classify_directory_as_file_in_tree_mode() {
    let r = classify_probe(
        "dir1".to_string(),
        Some(Stat { is_dir: true, is_link: false }),
        true,
    );
    match r {
        StatResult::File(f) => {
            assert_eq!(f.path, "dir1");
            assert!(f.is_dir);
            assert!(f.as_file);
        }
        _ => panic!("in tree mode a directory resolves as a single entry"),
    }
}

#[test]
fn classify_failed_probe() {
    let r = classify_probe("missing.txt".to_string(), None, false);
    assert!(matches!(r, StatResult::Error));
}

#[test]
fn resolve_accounts_for_every_outcome() {
    // Mixed batch: two files, one pending directory, one failure.
    let mut exa = Exa::new(plain_options());
    let outcomes = vec![
        file_outcome("a.txt"),
        dir_outcome("dir1"),
        StatResult::Error,
        file_outcome("b.txt"),
    ];
    exa.resolve(outcomes);
    assert_eq!(exa.count, 4);
    // Only the three non-failures are entries for the printer.
    assert_eq!(exa.processed, 3);
    assert_eq!(exa.files.len(), 2);
    assert_eq!(exa.dirs.len(), 1);
    // Buckets keep arrival order.
    assert_eq!(exa.files[0].path, "a.txt");
    assert_eq!(exa.files[1].path, "b.txt");
    assert_eq!(exa.dirs[0], "dir1");
    // files + pending directories + failures == targets submitted
    assert_eq!(exa.files.len() + exa.dirs.len() + 1, 4);
}

#[test]
fn resolve_empty_batch() {
    let mut exa = Exa::new(plain_options());
    exa.resolve(Vec::new());
    assert_eq!(exa.count, 0);
    assert!(exa.files.is_empty());
    assert!(exa.dirs.is_empty());
}

#[test]
fn two_regular_files_no_directories() {
    // Input ["a.txt", "b.txt"], both regular files.
    let mut exa = Exa::new(plain_options());
    exa.resolve(vec![file_outcome("a.txt"), file_outcome("b.txt")]);
    assert_eq!(exa.files.len(), 2);
    assert!(exa.dirs.is_empty());
    let batch = exa.print_files().expect("two files resolved");
    assert_eq!(batch.len(), 2);
    // No directory header decisions happen: the stack is already empty.
    assert_eq!(exa.pop_dir(), None);
}

#[test]
fn missing_target_reports_and_continues() {
    // Input ["missing.txt"]: one failure, empty results, no crash.
    let mut exa = Exa::new(plain_options());
    exa.resolve(vec![classify_probe("missing.txt".to_string(), None, false)]);
    assert_eq!(exa.count, 1);
    assert_eq!(exa.processed, 0);
    assert!(exa.files.is_empty());
    assert!(exa.dirs.is_empty());
    assert!(exa.print_files().is_none());
    assert_eq!(exa.pop_dir(), None);
}

#[test]
fn gate_ceiling_respected() {
    // Ceiling 2, five targets: at most two slots ever held at once.
    let mut gate = Gate::new(2);
    let mut resolved = 0;
    let mut pending = 5;
    let mut held = 0;
    while resolved < 5 {
        // Start as many probes as there is room for.
        while pending > 0 && gate.try_acquire() {
            pending -= 1;
            held += 1;
            assert!(gate.in_flight() <= gate.ceiling());
        }
        assert!(held <= 2);
        // One completion arrives; its slot is released exactly once.
        gate.release();
        held -= 1;
        resolved += 1;
    }
    assert_eq!(gate.in_flight(), 0);
    assert_eq!(resolved, 5);
}

#[test]
fn gate_saturation_blocks_admission() {
    let mut gate = Gate::new(1);
    assert!(gate.try_acquire());
    assert!(!gate.try_acquire());
    gate.release();
    assert!(gate.try_acquire());
}

#[test]
fn ceiling_policy_is_eight_per_cpu() {
    assert_eq!(ceiling_for(1), 8);
    assert_eq!(ceiling_for(12), 96);
    assert_eq!(ceiling_for(usize::MAX), usize::MAX);
    // The default comes from the machine's own CPU count, never below one CPU.
    assert!(default_ceiling() >= 8);
}

#[test]
fn record_outcome_is_the_streamed_aggregator() {
    let mut exa = Exa::new(plain_options());
    exa.record_outcome(dir_outcome("d"));
    exa.record_outcome(StatResult::Error);
    exa.record_outcome(file_outcome("f"));
    assert_eq!(exa.count, 3);
    assert_eq!(exa.processed, 2);
    assert_eq!(exa.dirs, vec!["d".to_string()]);
    assert_eq!(exa.files.len(), 1);
    assert_eq!(exa.files[0].path, "f");
}

#[test]
fn file_new_copies_the_stat_bits() {
    let f = File::new(
        "x".to_string(),
        Stat { is_dir: true, is_link: true },
        false,
    );
    assert!(f.is_dir);
    assert!(f.is_link);
    assert!(!f.as_file);
    assert!(f.is_directory());
}

#[test]
fn recurse_options_accessors() {
    let ro = RecurseOptions { tree: false, max_depth: Some(3) };
    let action = DirAction::Recurse(ro);
    assert!(!action.is_tree());
    assert!(!action.is_as_file());
    assert_eq!(action.recurse_options(), Some(ro));
    assert!(ro.is_too_deep(4));
    assert!(!ro.is_too_deep(3));
    assert!(!RecurseOptions { tree: false, max_depth: None }.is_too_deep(usize::MAX));
    assert!(DirAction::AsFile.is_as_file());
    assert!(DirAction::Recurse(RecurseOptions { tree: true, max_depth: None }).is_tree());
    assert!(!DirAction::List.is_tree());
}
