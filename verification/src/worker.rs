//! One worker's attempt step.

use vstd::prelude::*;

use crate::oracle::Oracle;

verus! {

/// One worker of the pool. A worker evaluates candidates one at a time
/// against the shared target; the moment a candidate matches it is
/// finished and accepts no further work, so at most one success can
/// ever leave it. A candidate that does not match is discarded for
/// good — a negative oracle answer is definitive and never retried.
pub struct Worker {
    /// Set once the worker has published a success; final.
    pub finished: bool,
}

impl Worker {
    /// A fresh worker, ready to evaluate candidates.
    pub fn new() -> (r: Worker)
        ensures
            !r.finished,
    {
        Worker { finished: false }
    }

    /// Evaluate one candidate against the target through `oracle`.
    /// Reports whether it matched; on a match the worker terminates and
    /// takes no further candidates.
    pub fn process<O: Oracle>(&mut self, oracle: &O, candidate: &Vec<u8>) -> (found: bool)
        requires
            !old(self).finished,
        ensures
            found == oracle.matches(candidate@),
            final(self).finished == found,
    {
        let found = oracle.attempt(candidate);
        if found {
            self.finished = true;
        }
        found
    }
}

} // verus!
