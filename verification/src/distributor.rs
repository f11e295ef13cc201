//! The bounded buffer between the candidate source and the worker pool.

use std::collections::VecDeque;
use vstd::prelude::*;

verus! {

/// How many candidates may be in flight between the source and the
/// workers: the generator can run this far ahead of consumption without
/// unbounded memory growth.
pub const DISPATCH_BUFFER_CAPACITY: usize = 200;

/// Moves candidates from the source toward the workers through a
/// bounded first-in-first-out buffer. When the buffer is full, dispatch
/// is refused and the caller must let the workers drain it before
/// offering the candidate again: that refusal is the backpressure that
/// keeps the generator from running unboundedly ahead.
pub struct Distributor {
    /// In-flight candidates, oldest first; never longer than `capacity`.
    pub buffer: VecDeque<Vec<u8>>,
    /// The fixed bound on in-flight candidates; at least one.
    pub capacity: usize,
}

impl Distributor {
    /// The buffer never exceeds its fixed capacity.
    pub open spec fn wf(self) -> bool {
        &&& self.buffer@.len() <= self.capacity
        &&& self.capacity >= 1
    }

    /// An empty distributor bounded by `capacity` in-flight candidates.
    pub fn new(capacity: usize) -> (r: Distributor)
        requires
            capacity >= 1,
        ensures
            r.wf(),
            r.buffer@.len() == 0,
            r.capacity == capacity,
    {
        Distributor { buffer: VecDeque::new(), capacity }
    }

    /// Whether the buffer has no room for another candidate.
    pub fn is_full(&self) -> (r: bool)
        ensures
            r == (self.buffer@.len() >= self.capacity),
    {
        self.buffer.len() >= self.capacity
    }

    /// Offer one candidate. With room in the buffer the candidate is
    /// queued behind every earlier one and the dispatch is accepted;
    /// with the buffer full nothing changes and the dispatch is refused,
    /// so the caller must wait for deliveries to free space.
    pub fn dispatch(&mut self, candidate: Vec<u8>) -> (accepted: bool)
        requires
            old(self).wf(),
        ensures
            final(self).wf(),
            final(self).capacity == old(self).capacity,
            accepted == (old(self).buffer@.len() < old(self).capacity),
            accepted ==> final(self).buffer@ == old(self).buffer@.push(candidate),
            !accepted ==> final(self).buffer@ == old(self).buffer@,
    {
        if self.buffer.len() < self.capacity {
            self.buffer.push_back(candidate);
            true
        } else {
            false
        }
    }

    /// Hand the oldest in-flight candidate to the worker pool, if any:
    /// delivery preserves the order in which candidates were dispatched.
    pub fn deliver(&mut self) -> (r: Option<Vec<u8>>)
        requires
            old(self).wf(),
        ensures
            final(self).wf(),
            final(self).capacity == old(self).capacity,
            old(self).buffer@.len() == 0 ==> r is None && final(self).buffer@ == old(
                self,
            ).buffer@,
            old(self).buffer@.len() > 0 ==> {
                &&& r == Some(old(self).buffer@[0])
                &&& final(self).buffer@ == old(self).buffer@.skip(1)
            },
    {
        let r = self.buffer.pop_front();
        proof {
            if old(self).buffer@.len() > 0 {
                assert(self.buffer@ =~= old(self).buffer@.skip(1));
            }
        }
        r
    }

    /// How many candidates are in flight.
    pub fn in_flight(&self) -> (r: usize)
        ensures
            r == self.buffer@.len(),
    {
        self.buffer.len()
    }
}

} // verus!
