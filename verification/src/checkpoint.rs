//! Resumable snapshot of a candidate source's position.

use vstd::prelude::*;

verus! {

/// A minimal resumable snapshot of a candidate source: the number of
/// entries the source has already consumed. Resuming a source of the
/// same entries from this position re-emits no candidate that was
/// already dispatched and skips none.
#[derive(Clone, Copy, Debug, PartialEq, Eq, Structural)]
pub struct Checkpoint {
    /// How many entries of the source were consumed before the snapshot.
    pub position: u64,
}

} // verus!
