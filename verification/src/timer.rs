//! Fixed-interval repeating timers, the tick source of the simulation.
//!
//! Time is measured in abstract integer time units chosen by the caller
//! (for instance milliseconds). A timer fires when the time accumulated
//! since its last fire reaches its period, and then re-arms itself with the
//! remainder, firing at most once per `tick` call however much time has
//! passed.

use vstd::prelude::*;

verus! {

/// Mathematical model of an [`IntervalTimer`].
pub struct TimerView {
    pub period: int,
    pub elapsed: int,
}

impl TimerView {
    /// A timer is well formed when its period is positive and the
    /// accumulated time has not yet reached it.
    pub open spec fn wf(self) -> bool {
        0 < self.period && 0 <= self.elapsed < self.period
    }

    /// Whether advancing by `delta` makes the timer fire.
    pub open spec fn fires(self, delta: int) -> bool {
        self.elapsed + delta >= self.period
    }

    /// The timer after advancing by `delta`: accumulated time grows and
    /// wraps modulo the period on a fire.
    pub open spec fn ticked(self, delta: int) -> TimerView
        recommends
            self.wf(),
            delta >= 0,
    {
        TimerView { period: self.period, elapsed: (self.elapsed + delta) % self.period }
    }
}

/// A repeating fixed-interval timer.
#[derive(Clone, Copy, PartialEq, Eq, Structural, Debug)]
pub struct IntervalTimer {
    pub period: u64,
    pub elapsed: u64,
}

impl View for IntervalTimer {
    type V = TimerView;

    open spec fn view(&self) -> TimerView {
        TimerView { period: self.period as int, elapsed: self.elapsed as int }
    }
}

impl IntervalTimer {
    /// A fresh timer that will first fire once `period` time units have
    /// accumulated. The period must be positive.
    pub fn new(period: u64) -> (r: IntervalTimer)
        requires
            1 <= period,
        ensures
            r@ == (TimerView { period: period as int, elapsed: 0 }),
            r@.wf(),
    {
        IntervalTimer { period, elapsed: 0 }
    }

    /// Advance the timer by `delta` time units and report whether it fired.
    pub fn tick(&mut self, delta: u64) -> (fired: bool)
        requires
            old(self)@.wf(),
            delta <= u64::MAX - old(self).elapsed,
        ensures
            final(self)@.wf(),
            fired == old(self)@.fires(delta as int),
            final(self).period == old(self).period,
            final(self)@ == old(self)@.ticked(delta as int),
    {
        let total = self.elapsed + delta;
        if total >= self.period {
            self.elapsed = total % self.period;
            true
        } else {
            proof {
                vstd::arithmetic::div_mod::lemma_small_mod(total as nat, self.period as nat);
            }
            self.elapsed = total;
            false
        }
    }
}

} // verus!
