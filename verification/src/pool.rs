//! The worker-pool discipline: a fixed capacity and a live-worker count.
//!
//! In a running system the live-worker count is a counter shared with the
//! worker threads (see `helpers`), so no sequential contract can be stated
//! about any one observation of it. This type is the discipline that the
//! control loop follows around that counter — count a worker before its
//! batch is dispatched, count it off when the batch completes, and dispatch
//! only with a worker to spare — and carries the proof that under this
//! discipline the number of in-flight batches never exceeds the capacity.

use vstd::prelude::*;

verus! {

/// A fixed-capacity pool of workers, tracked by a live-worker count.
pub struct WorkerPool {
    /// Maximum number of concurrently running workers, fixed for the run.
    pub capacity: usize,
    /// Number of batches currently in flight.
    pub active: usize,
}

impl WorkerPool {
    /// The concurrency bound: the live-worker count never exceeds the
    /// capacity. `submit` and `complete` preserve it at every step.
    pub open spec fn wf(&self) -> bool {
        self.active <= self.capacity
    }

    /// A fresh pool with no worker running.
    pub fn new(capacity: usize) -> (p: Self)
        ensures
            p.wf(),
            p.capacity == capacity,
            p.active == 0,
    {
        WorkerPool { capacity, active: 0 }
    }

    /// Whether a worker is to spare. The control loop must check this before
    /// every admission: the pool itself neither queues nor rejects.
    pub fn has_spare_capacity(&self) -> (b: bool)
        ensures
            b == (self.active < self.capacity),
    {
        self.active < self.capacity
    }

    /// Counts a worker on, as one batch is dispatched. Only callable with a
    /// worker to spare, which is what keeps the bound an invariant.
    pub fn submit(&mut self)
        requires
            old(self).active < old(self).capacity,
        ensures
            final(self).wf(),
            final(self).capacity == old(self).capacity,
            final(self).active == old(self).active + 1,
    {
        self.active = self.active + 1;
    }

    /// Counts a worker off, as its batch completes.
    pub fn complete(&mut self)
        requires
            old(self).active > 0,
        ensures
            final(self).capacity == old(self).capacity,
            final(self).active == old(self).active - 1,
            old(self).wf() ==> final(self).wf(),
    {
        self.active = self.active - 1;
    }

    /// Whether every dispatched batch has completed: what the terminal join
    /// of a run waits for.
    pub fn drained(&self) -> (b: bool)
        ensures
            b == (self.active == 0),
    {
        self.active == 0
    }
}

} // verus!
