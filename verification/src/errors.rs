//! Error kinds of the engine core.
//!
//! A `GenerationError` is recoverable and scoped to a single candidate;
//! an `OracleError` is fatal and aborts a run before any work is done.

use vstd::prelude::*;

verus! {

/// A single candidate drawn from the source was malformed (for example
/// a corrupt wordlist line). Generation continues past it: the error is
/// scoped to that one entry and does not terminate the stream.
#[derive(Clone, Copy, Debug, PartialEq, Eq, Structural)]
pub enum GenerationError {
    MalformedCandidate,
}

/// The target cannot be evaluated at all (for example it could not be
/// opened). Fatal: a run aborts before any worker is started and no
/// outcome is produced.
#[derive(Clone, Copy, Debug, PartialEq, Eq, Structural)]
pub enum OracleError {
    TargetOpenFailed,
}

} // verus!
