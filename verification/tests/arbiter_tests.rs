use crack_engine::arbiter::ResultArbiter;
use crack_engine::outcome::Outcome;

#[test]
fn first_submission_wins() {
    let mut a = ResultArbiter::new();
    assert!(!a.has_winner());
    assert!(a.submit(vec![1, 1]));
    assert!(a.has_winner());
    assert!(!a.submit(vec![2, 2]));
    assert!(!a.submit(vec![3, 3]));
    match a.finalize() {
        Outcome::Found(w) => assert_eq!(w, vec![1, 1]),
        _ => panic!("expected the first submission to win"),
    }
}

#[test]
fn no_submission_finalizes_exhausted() {
    let a = ResultArbiter::new();
    assert!(matches!(a.finalize(), Outcome::Exhausted));
}
