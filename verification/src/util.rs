//! A repeat-scroll timer over millisecond timestamps.

use vstd::prelude::*;

verus! {

/// A timer that sets a target time in the future and can check whether that
/// time has arrived. Times are absolute timestamps in milliseconds; the
/// embedding shell chooses the clock and converts its instants to
/// milliseconds.
#[derive(Clone, Copy, Debug, Eq, PartialEq, Structural)]
pub struct Timer {
    /// The absolute time, in milliseconds, at which the timer fires.
    pub target: u64,
    /// The repeat interval, in milliseconds, set at creation time.
    pub interval: u64,
}

impl Timer {
    /// Creates a new timer with target `now` + `interval`.
    pub fn new(now: u64, interval: u64) -> (r: Timer)
        requires
            now + interval <= u64::MAX,
        ensures
            r.target == now + interval,
            r.interval == interval,
    {
        Timer { target: now + interval, interval }
    }

    /// The set target time.
    pub fn target(&self) -> (r: u64)
        ensures
            r == self.target,
    {
        self.target
    }

    /// Tests whether the target has been reached. Also reports how long
    /// overdue the target is, in milliseconds.
    pub fn test(&self, now: u64) -> (r: (bool, u64))
        ensures
            r.0 == (now > self.target),
            r.1 == if now > self.target { now - self.target } else { 0int },
    {
        if now > self.target {
            (true, now - self.target)
        } else {
            (false, 0)
        }
    }

    /// Sets the target time at `now` + the interval set at creation time, and
    /// returns the new target.
    pub fn set_at_interval(&mut self, now: u64) -> (r: u64)
        requires
            now + old(self).interval <= u64::MAX,
        ensures
            r == now + old(self).interval,
            final(self).target == now + old(self).interval,
            final(self).interval == old(self).interval,
    {
        self.target = now + self.interval;
        self.target
    }
}

} // verus!
