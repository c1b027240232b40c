//! A repeating interval timer driven by elapsed-duration inputs.

use vstd::prelude::*;

verus! {

/// A repeating interval timer. Partial progress persists across passes in
/// which the interval has not yet elapsed; when the accumulated duration
/// reaches the configured interval the timer fires, consumes exactly one
/// interval's worth, and keeps the remainder (it rearms automatically).
#[derive(Clone, Copy, PartialEq, Eq, Structural, Debug)]
pub struct IntervalTimer {
    /// Milliseconds accumulated since the last firing.
    pub elapsed_ms: u64,
    /// The configured firing interval, in milliseconds.
    pub interval_ms: u64,
}

impl IntervalTimer {
    /// Whether accumulating `delta_ms` more reaches the configured interval
    /// (boundary inclusive).
    pub open spec fn fires(self, delta_ms: u64) -> bool {
        self.elapsed_ms + delta_ms >= self.interval_ms
    }

    /// A fresh timer with the given interval and no accumulated progress.
    pub fn new(interval_ms: u64) -> (t: IntervalTimer)
        ensures
            t.interval_ms == interval_ms,
            t.elapsed_ms == 0,
    {
        IntervalTimer { elapsed_ms: 0, interval_ms }
    }

    /// Accumulate `delta_ms` and report whether the interval was reached.
    /// On firing, exactly one interval's worth is consumed and any surplus
    /// is retained; otherwise the accumulator simply grows by `delta_ms`.
    pub fn advance(&mut self, delta_ms: u64) -> (fired: bool)
        requires
            old(self).elapsed_ms + delta_ms <= u64::MAX,
        ensures
            final(self).interval_ms == old(self).interval_ms,
            fired == old(self).fires(delta_ms),
            fired ==> final(self).elapsed_ms
                == old(self).elapsed_ms + delta_ms - old(self).interval_ms,
            !fired ==> final(self).elapsed_ms == old(self).elapsed_ms + delta_ms,
    {
        let total = self.elapsed_ms + delta_ms;
        if total >= self.interval_ms {
            self.elapsed_ms = total - self.interval_ms;
            true
        } else {
            self.elapsed_ms = total;
            false
        }
    }
}

} // verus!
