//! The attempt predicate: does a guess unlock the target?

use vstd::prelude::*;

verus! {

/// The opaque predicate a worker queries for each candidate. The
/// concrete routine that opens and validates a target belongs to the
/// caller; this crate only relies on the predicate being a fixed
/// function of the guess bytes for the target's lifetime, which is what
/// `matches` names. A negative answer is definitive: the engine never
/// retries a candidate.
pub trait Oracle {
    /// Whether the guess `candidate` unlocks the target.
    spec fn matches(&self, candidate: Seq<u8>) -> bool;

    /// Evaluate one guess against the target.
    fn attempt(&self, candidate: &Vec<u8>) -> (r: bool)
        ensures
            r == self.matches(candidate@),
    ;
}

/// An oracle whose target is unlocked by exactly one known secret:
/// the simplest concrete attempt predicate, and the one the tests use.
pub struct ExactOracle {
    /// The only guess that unlocks this oracle's target.
    pub secret: Vec<u8>,
}

impl ExactOracle {
    /// An oracle unlocked exactly by `secret`.
    pub fn new(secret: Vec<u8>) -> (r: ExactOracle)
        ensures
            r.secret@ == secret@,
    {
        ExactOracle { secret }
    }
}

impl Oracle for ExactOracle {
    open spec fn matches(&self, candidate: Seq<u8>) -> bool {
        candidate == self.secret@
    }

    fn attempt(&self, candidate: &Vec<u8>) -> (r: bool) {
        if candidate.len() != self.secret.len() {
            proof {
                assert(candidate@ != self.secret@);
            }
            return false;
        }
        let n = candidate.len();
        let mut i: usize = 0;
        while i < n
            invariant
                n == candidate@.len(),
                n == self.secret@.len(),
                i <= n,
                forall|j: int| 0 <= j < i ==> candidate@[j] == self.secret@[j],
            decreases n - i,
        {
            if candidate[i] != self.secret[i] {
                proof {
                    assert(candidate@ != self.secret@);
                }
                return false;
            }
            i = i + 1;
        }
        proof {
            assert(candidate@ =~= self.secret@);
        }
        true
    }
}

} // verus!
