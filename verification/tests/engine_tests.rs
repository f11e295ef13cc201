use crack_engine::engine::crack_file;
use crack_engine::engine::run;
use crack_engine::lifecycle::Engine;
use crack_engine::lifecycle::Event;
use crack_engine::errors::OracleError;
use crack_engine::oracle::ExactOracle;
use crack_engine::oracle::Oracle;
use crack_engine::outcome::Outcome;
use crack_engine::progress::ProgressTracker;
use crack_engine::source::CandidateSource;
use crack_engine::source::Entry;

fn numbered_entries(n: u64) -> Vec<Entry> {
    let mut entries = Vec::new();
    for i in 0..n {
        entries.push(Entry::Good(format!("{}", i).into_bytes()));
    }
    entries
}

#[test]
fn finds_the_matching_candidate() {
    let entries = vec![
        Entry::Good(vec![10]),
        Entry::Good(vec![20]),
        Entry::Good(vec![30]),
        Entry::Good(vec![40]),
    ];
    let oracle = ExactOracle::new(vec![30]);
    let mut source = CandidateSource::new(entries, Some(4));
    let mut progress = ProgressTracker::new(Some(4));
    match crack_file(2, &oracle, &mut source, &mut progress) {
        Outcome::Found(w) => assert_eq!(w, vec![30]),
        _ => panic!("expected Found"),
    }
    assert_eq!(progress.count(), 3);
}

#[test]
fn match_on_the_first_candidate_stops_at_once() {
    let entries = vec![Entry::Good(vec![1]), Entry::Good(vec![2])];
    let oracle = ExactOracle::new(vec![1]);
    let mut source = CandidateSource::new(entries, None);
    let mut progress = ProgressTracker::new(None);
    match crack_file(1, &oracle, &mut source, &mut progress) {
        Outcome::Found(w) => assert_eq!(w, vec![1]),
        _ => panic!("expected Found"),
    }
    assert_eq!(progress.count(), 1);
    assert!(!source.is_exhausted());
}

#[test]
fn no_match_reports_exhausted_with_full_count() {
    let entries = numbered_entries(50);
    let oracle = ExactOracle::new(b"never".to_vec());
    let mut source = CandidateSource::new(entries, Some(50));
    let mut progress = ProgressTracker::new(Some(50));
    assert!(matches!(
        crack_file(4, &oracle, &mut source, &mut progress),
        Outcome::Exhausted
    ));
    assert_eq!(progress.count(), 50);
    assert_eq!(Some(progress.count()), source.size());
    assert!(source.is_exhausted());
    assert_eq!(progress.percent(), Some(100));
}

#[test]
fn malformed_entries_are_skipped_not_dispatched() {
    let entries = vec![
        Entry::Good(vec![1]),
        Entry::Malformed,
        Entry::Malformed,
        Entry::Good(vec![2]),
    ];
    let oracle = ExactOracle::new(vec![9]);
    let mut source = CandidateSource::new(entries, None);
    let mut progress = ProgressTracker::new(None);
    assert!(matches!(
        crack_file(1, &oracle, &mut source, &mut progress),
        Outcome::Exhausted
    ));
    assert_eq!(progress.count(), 2);
}

#[test]
fn match_behind_a_malformed_entry_is_still_found() {
    let entries = vec![Entry::Malformed, Entry::Good(vec![7])];
    let oracle = ExactOracle::new(vec![7]);
    let mut source = CandidateSource::new(entries, None);
    let mut progress = ProgressTracker::new(None);
    match crack_file(3, &oracle, &mut source, &mut progress) {
        Outcome::Found(w) => assert_eq!(w, vec![7]),
        _ => panic!("expected Found"),
    }
    assert_eq!(progress.count(), 1);
}

#[test]
fn worker_counts_one_and_eight_agree_on_a_thousand_candidates() {
    let secret = format!("{}", 500).into_bytes();
    let oracle = ExactOracle::new(secret.clone());

    let mut source_one = CandidateSource::new(numbered_entries(1000), Some(1000));
    let mut progress_one = ProgressTracker::new(Some(1000));
    let one = crack_file(1, &oracle, &mut source_one, &mut progress_one);

    let mut source_eight = CandidateSource::new(numbered_entries(1000), Some(1000));
    let mut progress_eight = ProgressTracker::new(Some(1000));
    let eight = crack_file(8, &oracle, &mut source_eight, &mut progress_eight);

    match (one, eight) {
        (Outcome::Found(a), Outcome::Found(b)) => {
            assert_eq!(a, b);
            assert_eq!(a, secret);
        }
        _ => panic!("both runs must report Found"),
    }
    assert_eq!(progress_one.count(), progress_eight.count());
}

#[test]
fn failed_target_open_aborts_before_any_work() {
    let mut source = CandidateSource::new(numbered_entries(5), Some(5));
    let mut progress = ProgressTracker::new(Some(5));
    let r = run::<ExactOracle>(
        4,
        Err(OracleError::TargetOpenFailed),
        &mut source,
        &mut progress,
    );
    assert_eq!(r.unwrap_err(), OracleError::TargetOpenFailed);
    assert_eq!(progress.count(), 0);
    assert!(!source.is_exhausted());
    assert_eq!(source.checkpoint().position, 0);
}

#[test]
fn opened_target_runs_to_an_outcome() {
    let mut source = CandidateSource::new(numbered_entries(5), Some(5));
    let mut progress = ProgressTracker::new(Some(5));
    let r = run(2, Ok(ExactOracle::new(b"3".to_vec())), &mut source, &mut progress);
    match r {
        Ok(Outcome::Found(w)) => assert_eq!(w, b"3".to_vec()),
        _ => panic!("expected Ok(Found)"),
    }
}

#[test]
fn exact_oracle_accepts_only_its_secret() {
    let oracle = ExactOracle::new(vec![1, 2, 3]);
    assert!(oracle.attempt(&vec![1, 2, 3]));
    assert!(!oracle.attempt(&vec![1, 2]));
    assert!(!oracle.attempt(&vec![1, 2, 4]));
    assert!(!oracle.attempt(&Vec::new()));
}

#[test]
fn cancelled_mid_run_resumes_without_loss_or_repeat() {
    // A run dispatches three candidates, then an interrupt arrives.
    let mut source = CandidateSource::new(numbered_entries(10), Some(10));
    for _ in 0..3 {
        let _ = source.next();
    }
    let cp = source.checkpoint();
    let mut engine = Engine::new();
    engine.handle(Event::Interrupt(cp));
    engine.handle(Event::Drained);
    let cp = match engine.into_outcome() {
        Some(Outcome::Cancelled(cp)) => cp,
        _ => panic!("expected Cancelled"),
    };
    assert_eq!(cp.position, 3);

    // A later run resumed from the reported checkpoint sees exactly the
    // seven candidates that were never dispatched.
    let oracle = ExactOracle::new(b"none".to_vec());
    let mut resumed = CandidateSource::resume(numbered_entries(10), Some(10), &cp);
    let mut progress = ProgressTracker::new(Some(10));
    assert!(matches!(
        crack_file(2, &oracle, &mut resumed, &mut progress),
        Outcome::Exhausted
    ));
    assert_eq!(progress.count(), 7);
}

#[test]
fn resumed_run_covers_exactly_the_remaining_candidates() {
    let oracle = ExactOracle::new(b"none".to_vec());
    let mut source = CandidateSource::new(numbered_entries(10), Some(10));
    let mut progress = ProgressTracker::new(Some(10));
    for _ in 0..4 {
        let _ = source.next();
    }
    let cp = source.checkpoint();
    let mut resumed = CandidateSource::resume(numbered_entries(10), Some(10), &cp);
    assert!(matches!(
        crack_file(2, &oracle, &mut resumed, &mut progress),
        Outcome::Exhausted
    ));
    assert_eq!(progress.count(), 6);
}
