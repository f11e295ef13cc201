//! Progress accounting for one engine run.

use vstd::prelude::*;

verus! {

/// The percentage of `count` against `total`, capped at 100 so that an
/// approximate total that undershoots the real stream cannot overflow
/// the figure.
pub open spec fn percent_of(count: u64, total: u64) -> u64
    recommends
        total > 0,
{
    if count as int * 100 / total as int > 100 {
        100u64
    } else {
        (count as int * 100 / total as int) as u64
    }
}

/// Counts candidates successfully dispatched by the distributor, against
/// a best-effort total declared by the candidate source. The counter is
/// monotonic: it only ever advances, by exactly one per dispatch. A
/// `total` of `None` means the source's extent is unknown and progress
/// is reported as a bare count, without a percentage.
pub struct ProgressTracker {
    /// Candidates dispatched so far.
    pub count: u64,
    /// The source's declared total, if it declared one.
    pub total: Option<u64>,
}

impl ProgressTracker {
    /// A fresh tracker for a run over a source declaring `total`.
    pub fn new(total: Option<u64>) -> (r: ProgressTracker)
        ensures
            r.count == 0,
            r.total == total,
    {
        ProgressTracker { count: 0, total }
    }

    /// Record one successful dispatch.
    pub fn record_dispatch(&mut self)
        requires
            old(self).count < u64::MAX,
        ensures
            final(self).count == old(self).count + 1,
            final(self).total == old(self).total,
    {
        self.count = self.count + 1;
    }

    /// The number of candidates dispatched so far.
    pub fn count(&self) -> (r: u64)
        ensures
            r == self.count,
    {
        self.count
    }

    /// The declared total, if any.
    pub fn total(&self) -> (r: Option<u64>)
        ensures
            r == self.total,
    {
        self.total
    }

    /// The fraction complete as a whole percentage, capped at 100.
    /// `None` when the total is unknown or declared as zero: progress is
    /// then a bare count.
    pub fn percent(&self) -> (r: Option<u64>)
        ensures
            match self.total {
                Some(t) => if t > 0 {
                    r == Some(percent_of(self.count, t))
                } else {
                    r is None
                },
                None => r is None,
            },
    {
        match self.total {
            Some(t) => {
                if t > 0 {
                    let wide: u128 = (self.count as u128) * 100 / (t as u128);
                    if wide > 100 {
                        Some(100)
                    } else {
                        Some(wide as u64)
                    }
                } else {
                    None
                }
            },
            None => None,
        }
    }
}

} // verus!
