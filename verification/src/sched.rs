//! Per-tick scheduling decisions of the control loop.
//!
//! A `Scheduler` owns the credit accumulator and knows the worker-pool
//! capacity. Each tick the surrounding loop reports how much time has passed
//! and how many workers are live; the scheduler answers how many items may be
//! admitted, and is told afterwards how many actually were and whether the
//! source ran out.

use vstd::prelude::*;

use crate::rate::advanced_credits;
use crate::rate::CREDIT_UNIT;
use crate::rate::RateAccumulator;

verus! {

/// The control-loop state machine: credit balance, pool capacity, and
/// whether the source has been seen to run out.
pub struct Scheduler {
    /// The credit accumulator driving admission.
    pub acc: RateAccumulator,
    /// Worker-pool capacity fixed for the run.
    pub capacity: usize,
    /// True once the item source has reported exhaustion; the loop stops
    /// ticking when this is set.
    pub finished: bool,
}

impl Scheduler {
    /// The scheduler is well formed when its credit accounting is conserved.
    pub open spec fn wf(&self) -> bool {
        self.acc.conserved()
    }

    /// A fresh scheduler: one whole item of credit, nothing admitted.
    pub fn new(rate: u64, capacity: usize) -> (s: Self)
        ensures
            s.wf(),
            !s.finished,
            s.capacity == capacity,
            s.acc.rate == rate,
            s.acc.credits == CREDIT_UNIT,
            s.acc.elapsed@ == 0,
            s.acc.admitted@ == 0,
            s.acc.exact@,
    {
        Scheduler { acc: RateAccumulator::new(rate), capacity, finished: false }
    }

    /// One tick of the control loop: credit the elapsed time, then decide how
    /// many items may be admitted. Credit accumulates even while the pool is
    /// saturated — time still passes — but admission is granted only with a
    /// worker to spare, so the concurrency bound is never traded for the rate
    /// target.
    pub fn tick(&mut self, elapsed_nanos: u64, active_workers: usize) -> (n: usize)
        requires
            old(self).wf(),
        ensures
            final(self).wf(),
            final(self).capacity == old(self).capacity,
            final(self).finished == old(self).finished,
            final(self).acc.rate == old(self).acc.rate,
            final(self).acc.admitted@ == old(self).acc.admitted@,
            final(self).acc.elapsed@ == old(self).acc.elapsed@ + elapsed_nanos,
            final(self).acc.credits == advanced_credits(
                old(self).acc.credits,
                old(self).acc.rate,
                elapsed_nanos,
            ),
            final(self).acc.exact@ == (old(self).acc.exact@
                && old(self).acc.credits + old(self).acc.rate * elapsed_nanos <= u128::MAX),
            active_workers >= old(self).capacity ==> n == 0,
            active_workers < old(self).capacity ==> n == final(self).acc.spec_admissible(),
            n <= final(self).acc.spec_admissible(),
    {
        self.acc.advance(elapsed_nanos);
        if active_workers < self.capacity {
            self.acc.admissible()
        } else {
            0
        }
    }

    /// Records the outcome of an admission: `taken` items were drawn from the
    /// source (and their credit is spent, keeping the fractional remainder),
    /// and `exhausted` tells whether the source ran out while serving them.
    pub fn record(&mut self, taken: usize, exhausted: bool)
        requires
            old(self).wf(),
            taken <= old(self).acc.spec_admissible(),
        ensures
            final(self).wf(),
            final(self).capacity == old(self).capacity,
            final(self).acc.rate == old(self).acc.rate,
            final(self).acc.elapsed@ == old(self).acc.elapsed@,
            final(self).acc.exact@ == old(self).acc.exact@,
            final(self).acc.admitted@ == old(self).acc.admitted@ + taken,
            final(self).acc.credits == old(self).acc.credits - taken * CREDIT_UNIT,
            final(self).finished == (old(self).finished || exhausted),
    {
        self.acc.spend(taken);
        if exhausted {
            self.finished = true;
        }
    }

    /// Whether the run is over: the source was seen to run out.
    pub fn is_finished(&self) -> (b: bool)
        ensures
            b == self.finished,
    {
        self.finished
    }
}

} // verus!
