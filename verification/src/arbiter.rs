//! First-success arbitration.

use vstd::prelude::*;

use crate::outcome::Outcome;
use crate::outcome::OutcomeModel;

verus! {

/// Collects at most one success from the worker pool. The first
/// submission wins; every later one is refused and its candidate
/// dropped, so a run can never report two winners.
pub struct ResultArbiter {
    /// The winning candidate, once one has arrived.
    pub winner: Option<Vec<u8>>,
}

impl ResultArbiter {
    /// A fresh arbiter with no success recorded.
    pub fn new() -> (r: ResultArbiter)
        ensures
            r.winner is None,
    {
        ResultArbiter { winner: None }
    }

    /// Offer a successful candidate. Accepted only while no success is
    /// recorded yet; a later submission changes nothing and is refused.
    pub fn submit(&mut self, candidate: Vec<u8>) -> (accepted: bool)
        ensures
            accepted == (old(self).winner is None),
            old(self).winner is None ==> final(self).winner == Some(candidate),
            old(self).winner is Some ==> final(self).winner == old(self).winner,
    {
        match &self.winner {
            None => {
                self.winner = Some(candidate);
                true
            },
            Some(_) => false,
        }
    }

    /// Whether a success has been recorded.
    pub fn has_winner(&self) -> (r: bool)
        ensures
            r == (self.winner is Some),
    {
        match &self.winner {
            Some(_) => true,
            None => false,
        }
    }

    /// Close the run without a cancellation: the recorded success, if
    /// one arrived, else exhaustion of the candidate space.
    pub fn finalize(self) -> (r: Outcome)
        ensures
            match self.winner {
                Some(w) => r@ == OutcomeModel::Found(w@),
                None => r@ == OutcomeModel::Exhausted,
            },
    {
        match self.winner {
            Some(w) => Outcome::Found(w),
            None => Outcome::Exhausted,
        }
    }
}

} // verus!
