//! The terminal result of one engine run.

use vstd::prelude::*;

use crate::checkpoint::Checkpoint;

verus! {

/// Exactly one `Outcome` terminates a run: the first successful guess,
/// exhaustion of the candidate space, or cancellation together with a
/// checkpoint from which generation can resume.
#[derive(Clone, Debug)]
pub enum Outcome {
    Found(Vec<u8>),
    Exhausted,
    Cancelled(Checkpoint),
}

/// The mathematical shape of an `Outcome`, with the winning guess as a
/// byte sequence.
#[verifier::ext_equal]
pub enum OutcomeModel {
    Found(Seq<u8>),
    Exhausted,
    Cancelled(Checkpoint),
}

impl View for Outcome {
    type V = OutcomeModel;

    open spec fn view(&self) -> OutcomeModel {
        match self {
            Outcome::Found(c) => OutcomeModel::Found(c@),
            Outcome::Exhausted => OutcomeModel::Exhausted,
            Outcome::Cancelled(cp) => OutcomeModel::Cancelled(*cp),
        }
    }
}

} // verus!
