//! Free-running periodic blinkers.
//!
//! Each blinker owns one binary output and one fixed interval and toggles
//! forever: high, wait, low, wait.  Blinkers touch no shared state, so any
//! number of them with different intervals share the scheduler without
//! interfering with each other or with the sampler's cycle.

use vstd::prelude::*;

verus! {

/// One blinker: a fixed interval and the current output level.
pub struct Blinker {
    interval_ms: u64,
    high: bool,
}

impl Blinker {
    /// The fixed toggle interval, in milliseconds.
    pub closed spec fn interval(self) -> u64 {
        self.interval_ms
    }

    /// Whether the output is currently driven high.
    pub closed spec fn is_high(self) -> bool {
        self.high
    }

    /// A new blinker starts with its output low.
    pub fn new(interval_ms: u64) -> (b: Self)
        requires
            interval_ms > 0,
        ensures
            b.interval() == interval_ms,
            !b.is_high(),
    {
        Blinker { interval_ms, high: false }
    }

    /// The fixed toggle interval, in milliseconds.
    pub fn interval_ms(&self) -> (r: u64)
        ensures
            r == self.interval(),
    {
        self.interval_ms
    }

    /// Whether the output is currently driven high.
    pub fn level_high(&self) -> (r: bool)
        ensures
            r == self.is_high(),
    {
        self.high
    }

    /// One toggle: flip the output and report how long to wait before the
    /// next one.
    pub fn step(&mut self) -> (delay_ms: u64)
        ensures
            final(self).interval() == old(self).interval(),
            final(self).is_high() == !old(self).is_high(),
            delay_ms == old(self).interval(),
    {
        self.high = !self.high;
        self.interval_ms
    }

    /// Run until the next toggle would pass the horizon, counting toggles.
    /// Over a horizon of H milliseconds a blinker with interval I toggles
    /// exactly H / I times, independent of anything else on the scheduler.
    pub fn run_for(&mut self, horizon_ms: u64) -> (toggles: u64)
        requires
            old(self).interval() > 0,
        ensures
            toggles == horizon_ms as int / old(self).interval() as int,
            final(self).interval() == old(self).interval(),
            final(self).is_high() == (old(self).is_high() != (toggles % 2 == 1)),
    {
        let mut elapsed_ms: u64 = 0;
        let mut toggles: u64 = 0;
        while self.interval_ms <= horizon_ms - elapsed_ms
            invariant
                self.interval_ms == old(self).interval(),
                self.interval_ms > 0,
                elapsed_ms == toggles * self.interval_ms,
                toggles <= elapsed_ms,
                elapsed_ms <= horizon_ms,
                self.high == (old(self).is_high() != (toggles % 2 == 1)),
            decreases horizon_ms - elapsed_ms,
        {
            let _delay: u64 = self.step();
            proof {
                assert((toggles + 1) * self.interval_ms == toggles * self.interval_ms
                    + self.interval_ms) by (nonlinear_arith);
            }
            elapsed_ms = elapsed_ms + self.interval_ms;
            toggles = toggles + 1;
        }
        proof {
            assert(toggles == horizon_ms as int / self.interval_ms as int) by (nonlinear_arith)
                requires
                    self.interval_ms > 0,
                    elapsed_ms == toggles * self.interval_ms,
                    elapsed_ms <= horizon_ms,
                    horizon_ms - elapsed_ms < self.interval_ms,
            ;
        }
        toggles
    }
}

} // verus!
