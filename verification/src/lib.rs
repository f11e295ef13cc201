//! A brute-force credential-search engine core.
//!
//! A single candidate source streams password guesses toward a pool of
//! workers that test each guess against a protected target until one
//! succeeds, the candidate space is exhausted, or the run is cancelled.
//! This crate holds the orchestration logic: the resumable candidate
//! source, the bounded distributor with backpressure, the worker attempt
//! step, first-success arbitration, progress accounting, and the
//! cancellation state machine. The concrete target predicate is an
//! opaque oracle supplied by the caller; the async scheduling, signal
//! handling and rendering around a run live outside this crate.

pub mod arbiter;
pub mod checkpoint;
pub mod distributor;
pub mod engine;
pub mod errors;
pub mod lifecycle;
pub mod oracle;
pub mod outcome;
pub mod progress;
pub mod source;
pub mod worker;
