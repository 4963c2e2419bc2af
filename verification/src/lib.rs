//! Rate-limited dispatch of work items to a bounded pool of workers.
//!
//! `RpmTimer` throttles delivery of a sequence of items so that the long-run
//! admission rate converges to a caller-chosen items-per-unit-time target,
//! while never running more than a configured number of workers at once.
//! This crate holds the verified core: the credit accumulator, the slice
//! cursor, and the per-tick scheduling decisions. The surrounding loop — wall
//! clock, sleeping, and the worker threads themselves — is ordinary plumbing
//! that drives these decisions.

use vstd::prelude::*;

pub mod helpers;
pub mod pool;
pub mod rate;
pub mod sched;
pub mod source;

use crate::sched::Scheduler;

verus! {

/// Default tick interval: 100 milliseconds, in nanoseconds.
pub const DEFAULT_TICK_NANOS: u64 = 100_000_000;

/// Default admission rate: one item per second, in thousandths of an item
/// per minute.
pub const DEFAULT_RATE: u64 = 60_000;

/// Configuration for one throttled run.
///
/// Immutable once a run starts; built by chaining the `tick`, `rpm_limit`,
/// `rps_limit` and `max_threads` methods on `RpmTimer::default()`.
pub struct RpmTimer {
    /// Interval between control-loop ticks, in nanoseconds.
    pub tick: u64,
    /// Target admission rate, in thousandths of an item per minute.
    pub rate: u64,
    /// Maximum number of concurrently running workers; `None` means the
    /// host's logical CPU count.
    pub max_threads: Option<usize>,
}

impl RpmTimer {
    /// Sets the interval between control-loop ticks, in nanoseconds.
    ///
    /// The higher the requested rate, the lower the tick interval should be.
    pub fn tick(self, value: u64) -> (r: Self)
        ensures
            r.tick == value,
            r.rate == self.rate,
            r.max_threads == self.max_threads,
    {
        RpmTimer { tick: value, rate: self.rate, max_threads: self.max_threads }
    }

    /// Sets the target rate in thousandths of an item per minute. It
    /// overrides the value previously set by `rps_limit`, if any.
    pub fn rpm_limit(self, value: u64) -> (r: Self)
        ensures
            r.rate == value,
            r.tick == self.tick,
            r.max_threads == self.max_threads,
    {
        RpmTimer { tick: self.tick, rate: value, max_threads: self.max_threads }
    }

    /// Sets the target rate in thousandths of an item per second. It
    /// overrides the value previously set by `rpm_limit`, if any.
    pub fn rps_limit(self, value: u64) -> (r: Self)
        requires
            value * 60 <= u64::MAX,
        ensures
            r.rate == value * 60,
            r.tick == self.tick,
            r.max_threads == self.max_threads,
    {
        RpmTimer { tick: self.tick, rate: value * 60, max_threads: self.max_threads }
    }

    /// Sets the maximum number of concurrently running workers.
    ///
    /// Pass `None` to use the host's logical CPU count.
    pub fn max_threads(self, value: Option<usize>) -> (r: Self)
        ensures
            r.max_threads == value,
            r.tick == self.tick,
            r.rate == self.rate,
    {
        RpmTimer { tick: self.tick, rate: self.rate, max_threads: value }
    }

    /// The worker-pool capacity this configuration asks for: the configured
    /// maximum, or the host's logical CPU count when none was set.
    pub fn pool_size(&self) -> (n: usize)
        ensures
            match self.max_threads {
                Some(v) => n == v,
                None => 1 <= n,
            },
    {
        match self.max_threads {
            Some(v) => v,
            None => logical_cpus(),
        }
    }

    /// Starts a scheduler for this configuration: a fresh credit balance of
    /// one whole item, the configured rate, and the resolved pool capacity.
    pub fn begin(&self) -> (s: Scheduler)
        ensures
            s.wf(),
            !s.finished,
            s.acc.rate == self.rate,
            s.acc.credits == crate::rate::CREDIT_UNIT,
            s.acc.elapsed@ == 0,
            s.acc.admitted@ == 0,
            s.acc.exact@,
            match self.max_threads {
                Some(v) => s.capacity == v,
                None => 1 <= s.capacity,
            },
    {
        Scheduler::new(self.rate, self.pool_size())
    }
}

impl Default for RpmTimer {
    /// The default configuration: 100 ms ticks, one item per second, and as
    /// many workers as the host has logical CPUs.
    fn default() -> (r: Self)
        ensures
            r.tick == DEFAULT_TICK_NANOS,
            r.rate == DEFAULT_RATE,
            r.max_threads is None,
    {
        RpmTimer { tick: DEFAULT_TICK_NANOS, rate: DEFAULT_RATE, max_threads: None }
    }
}

/// Relies on `num_cpus::get`: the number of logical CPUs of the host, which
/// its documentation promises to be at least 1.
#[verifier::external_body]
fn logical_cpus() -> (n: usize)
    ensures
        1 <= n,
{
    num_cpus::get()
}

} // verus!
