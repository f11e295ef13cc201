//! The engine's run: drain the candidate source through the
//! distributor and the worker pool until a first success or exhaustion.

use vstd::prelude::*;

use crate::arbiter::ResultArbiter;
use crate::distributor::DISPATCH_BUFFER_CAPACITY;
use crate::distributor::Distributor;
use crate::errors::OracleError;
use crate::oracle::Oracle;
use crate::outcome::Outcome;
use crate::outcome::OutcomeModel;
use crate::progress::ProgressTracker;
use crate::source::CandidateSource;
use crate::source::Entry;
use crate::worker::Worker;

verus! {

/// What draining the entries `s` yields: the first candidate the
/// oracle accepts, if any, and how many candidates are dispatched
/// before the run stops — through the match when there is one, else
/// every well-formed entry of the stream. Malformed entries are
/// consumed but never dispatched.
pub open spec fn search_result<O: Oracle>(s: Seq<Entry>, oracle: O) -> (Option<Seq<u8>>, nat)
    decreases s.len(),
{
    if s.len() == 0 {
        (None, 0nat)
    } else {
        match s[0] {
            Entry::Good(b) => if oracle.matches(b@) {
                (Some(b@), 1nat)
            } else {
                let rest = search_result(s.skip(1), oracle);
                (rest.0, rest.1 + 1)
            },
            Entry::Malformed => search_result(s.skip(1), oracle),
        }
    }
}

/// The outcome of an uninterrupted run over the entries `s` with
/// `workers` concurrent workers. The worker count shapes scheduling
/// only, never the result, so it does not appear on the right-hand
/// side: the outcome is the first accepted candidate or exhaustion.
pub open spec fn run_model<O: Oracle>(workers: int, s: Seq<Entry>, oracle: O) -> OutcomeModel {
    match search_result(s, oracle).0 {
        Some(b) => OutcomeModel::Found(b),
        None => OutcomeModel::Exhausted,
    }
}

/// Run the search to its natural end: pull candidates from `source` in
/// order, dispatch each through the bounded distributor, let the worker
/// pool query the oracle, and stop at the first success or when the
/// source is exhausted. Malformed entries are skipped as recoverable.
///
/// The distribution policy is multicast: every worker of the pool
/// observes every dispatched candidate, and the first positive answer
/// wins. Since the oracle is a fixed predicate of the guess bytes, the
/// pool's verdict on one candidate is one oracle query, and that is how
/// the run accounts for each dispatch — once, not once per worker. The
/// result and the progress count are exactly what `run_model` and
/// `search_result` say of the entries that were remaining at the call.
pub fn crack_file<O: Oracle>(
    no_workers: usize,
    oracle: &O,
    source: &mut CandidateSource,
    progress: &mut ProgressTracker,
) -> (r: Outcome)
    requires
        no_workers >= 1,
        old(source).wf(),
        old(progress).count + old(source).remaining().len() <= u64::MAX,
    ensures
        final(source).wf(),
        final(source).entries@ == old(source).entries@,
        final(source).declared_size == old(source).declared_size,
        final(source).cursor >= old(source).cursor,
        final(progress).total == old(progress).total,
        r@ == run_model(no_workers as int, old(source).remaining(), *oracle),
        final(progress).count == old(progress).count + search_result(
            old(source).remaining(),
            *oracle,
        ).1,
        r@ is Exhausted ==> final(source).spec_is_exhausted(),
{
    let ghost rem0 = old(source).remaining();
    let ghost count0 = old(progress).count;

    let mut distributor = Distributor::new(DISPATCH_BUFFER_CAPACITY);
    let mut worker = Worker::new();
    let mut arbiter = ResultArbiter::new();

    loop
        invariant
            source.wf(),
            source.entries@ == old(source).entries@,
            source.declared_size == old(source).declared_size,
            source.cursor >= old(source).cursor,
            progress.total == old(progress).total,
            distributor.wf(),
            distributor.buffer@.len() == 0,
            distributor.capacity == DISPATCH_BUFFER_CAPACITY,
            !worker.finished,
            arbiter.winner is None,
            rem0 == old(source).remaining(),
            count0 == old(progress).count,
            count0 + rem0.len() <= u64::MAX,
            progress.count >= count0,
            progress.count - count0 <= rem0.len() - source.remaining().len(),
            search_result(rem0, *oracle).0 == search_result(source.remaining(), *oracle).0,
            search_result(rem0, *oracle).1 == progress.count - count0 + search_result(
                source.remaining(),
                *oracle,
            ).1,
        decreases source.remaining().len(),
    {
        let ghost rem_pre = source.remaining();
        let step = source.next();
        match step {
            Ok(opt) => match opt {
                Some(c) => {
                    proof {
                        assert(rem_pre.len() > 0);
                        assert(rem_pre.skip(1) =~= source.remaining());
                        assert(rem_pre[0] matches Entry::Good(b) && c@ == b@);
                    }
                    let accepted = distributor.dispatch(c);
                    proof {
                        assert(accepted);
                    }
                    progress.record_dispatch();
                    match distributor.deliver() {
                        Some(cand) => {
                            if worker.process(oracle, &cand) {
                                proof {
                                    assert(search_result(rem_pre, *oracle) == (
                                        Some(cand@),
                                        1nat,
                                    ));
                                }
                                let _ = arbiter.submit(cand);
                                return arbiter.finalize();
                            } else {
                                proof {
                                    let rest = search_result(source.remaining(), *oracle);
                                    assert(search_result(rem_pre, *oracle) == (
                                        rest.0,
                                        rest.1 + 1,
                                    ));
                                }
                            }
                        },
                        None => {
                            proof {
                                assert(false);
                            }
                        },
                    }
                },
                None => {
                    proof {
                        assert(source.remaining().len() == 0);
                        assert(search_result(source.remaining(), *oracle) == (
                            None::<Seq<u8>>,
                            0nat,
                        ));
                    }
                    return arbiter.finalize();
                },
            },
            Err(_) => {
                proof {
                    assert(rem_pre.len() > 0);
                    assert(rem_pre.skip(1) =~= source.remaining());
                    assert(rem_pre[0] is Malformed);
                    assert(search_result(rem_pre, *oracle) == search_result(
                        source.remaining(),
                        *oracle,
                    ));
                }
            },
        }
    }
}

/// The engine's entry point. A target that failed to open aborts the
/// run at once — before any worker is started, any candidate drawn or
/// any progress recorded — and surfaces the fatal error; a run never
/// turns such a failure into an outcome. With an opened target the run
/// proceeds exactly as `crack_file` says.
pub fn run<O: Oracle>(
    worker_count: usize,
    target: Result<O, OracleError>,
    source: &mut CandidateSource,
    progress: &mut ProgressTracker,
) -> (r: Result<Outcome, OracleError>)
    requires
        worker_count >= 1,
        old(source).wf(),
        old(progress).count + old(source).remaining().len() <= u64::MAX,
    ensures
        final(source).wf(),
        target is Err ==> {
            &&& r == Result::<Outcome, OracleError>::Err(target->Err_0)
            &&& *final(source) == *old(source)
            &&& *final(progress) == *old(progress)
        },
        target is Ok ==> ({
            let oracle = target->Ok_0;
            &&& r is Ok
            &&& r->Ok_0@ == run_model(worker_count as int, old(source).remaining(), oracle)
            &&& final(progress).count == old(progress).count + search_result(
                old(source).remaining(),
                oracle,
            ).1
            &&& final(progress).total == old(progress).total
            &&& final(source).entries@ == old(source).entries@
        }),
{
    match target {
        Err(e) => Err(e),
        Ok(oracle) => {
            let outcome = crack_file(worker_count, &oracle, source, progress);
            Ok(outcome)
        },
    }
}

/// The worker count never changes what a run reports: over the same
/// entries and the same oracle, any two pool sizes yield the same
/// outcome. Concurrency affects timing only, not correctness.
pub proof fn lemma_worker_count_immaterial<O: Oracle>(n1: int, n2: int, s: Seq<Entry>, oracle: O)
    requires
        n1 >= 1,
        n2 >= 1,
    ensures
        run_model(n1, s, oracle) == run_model(n2, s, oracle),
{
}

/// When the stream holds a matching candidate, the run finds it: if
/// the first well-formed entry the oracle accepts stands at position
/// `k`, the outcome is `Found` with exactly that candidate's bytes,
/// whatever the worker count.
pub proof fn lemma_found_at_first_match<O: Oracle>(workers: int, s: Seq<Entry>, oracle: O, k: int)
    requires
        workers >= 1,
        0 <= k < s.len(),
        s[k] is Good,
        oracle.matches(s[k].bytes()),
        forall|j: int| 0 <= j < k ==> ((#[trigger] s[j]) is Good ==> !oracle.matches(s[j].bytes())),
    ensures
        run_model(workers, s, oracle) == OutcomeModel::Found(s[k].bytes()),
    decreases k,
{
    if k == 0 {
        assert(search_result(s, oracle).0 == Some(s[0].bytes()));
    } else {
        let t = s.skip(1);
        assert(t[k - 1] == s[k]);
        assert forall|j: int| 0 <= j < k - 1 implies ((#[trigger] t[j]) is Good
            ==> !oracle.matches(t[j].bytes())) by {
            assert(t[j] == s[j + 1]);
        }
        lemma_found_at_first_match(workers, t, oracle, k - 1);
        assert((s[0]) is Good ==> !oracle.matches(s[0].bytes()));
    }
}

/// When no candidate of the stream matches, the run reports exhaustion,
/// and it has dispatched every well-formed candidate the source
/// produced, each exactly once: the dispatch count is the number of
/// well-formed entries.
pub proof fn lemma_exhausted_when_no_match<O: Oracle>(workers: int, s: Seq<Entry>, oracle: O)
    requires
        workers >= 1,
        forall|j: int|
            0 <= j < s.len() ==> ((#[trigger] s[j]) is Good ==> !oracle.matches(s[j].bytes())),
    ensures
        run_model(workers, s, oracle) == OutcomeModel::Exhausted,
        search_result(s, oracle).1 == crate::source::count_good(s),
    decreases s.len(),
{
    if s.len() == 0 {
    } else {
        let t = s.skip(1);
        assert forall|j: int| 0 <= j < t.len() implies ((#[trigger] t[j]) is Good
            ==> !oracle.matches(t[j].bytes())) by {
            assert(t[j] == s[j + 1]);
        }
        lemma_exhausted_when_no_match(workers, t, oracle);
        assert((s[0]) is Good ==> !oracle.matches(s[0].bytes()));
    }
}

} // verus!
