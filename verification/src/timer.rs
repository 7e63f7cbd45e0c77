//! The gravity timer: a repeating interval driven by the time that each tick
//! reports.

use vstd::prelude::*;
use crate::constants::FALL_INTERVAL_NANOS;

verus! {

/// Time since the last gravity step.
#[derive(Clone, Copy, PartialEq, Eq, Debug, Structural)]
pub struct FallTimer {
    /// Nanoseconds run since the interval last ended.
    pub elapsed_nanos: u64,
}

impl FallTimer {
    /// The interval ends when `delta` more nanoseconds have run.
    pub open spec fn fires(self, delta: int) -> bool {
        self.elapsed_nanos + delta >= FALL_INTERVAL_NANOS
    }

    /// The timer after `delta` more nanoseconds: whole intervals are dropped
    /// and the rest is carried into the next one.
    pub open spec fn advanced(self, delta: int) -> FallTimer {
        FallTimer {
            elapsed_nanos: ((self.elapsed_nanos + delta) % (FALL_INTERVAL_NANOS as int)) as u64,
        }
    }

    /// Advances the timer by `delta_nanos` and says whether the interval
    /// ended in that time. However many intervals ended, it fires once.
    pub fn tick(&mut self, delta_nanos: u64) -> (fired: bool)
        ensures
            fired == old(self).fires(delta_nanos as int),
            *final(self) == old(self).advanced(delta_nanos as int),
    {
        let total: u128 = self.elapsed_nanos as u128 + delta_nanos as u128;
        let rest: u128 = total % (FALL_INTERVAL_NANOS as u128);
        self.elapsed_nanos = rest as u64;
        total >= FALL_INTERVAL_NANOS as u128
    }
}

impl Default for FallTimer {
    /// A timer at the start of its interval.
    fn default() -> (timer: FallTimer)
        ensures
            timer.elapsed_nanos == 0,
    {
        FallTimer { elapsed_nanos: 0 }
    }
}

} // verus!
