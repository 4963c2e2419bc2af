//! Shared-counter operations used for the live-worker count.
//!
//! The control thread increments the counter before dispatching a batch and
//! reads it before every admission decision; each worker decrements it once
//! on completion. The operations carry no sequential contract: the counter is
//! shared between threads, so nothing can be promised about the value any one
//! observation returns.

use vstd::prelude::*;

use std::sync::Arc;
use std::sync::atomic::AtomicUsize;

verus! {

/// Increment, decrement and read on a shared live-worker counter.
pub trait AtomicUsizeExtensions {
    /// Adds one to the counter.
    fn increase(&self);

    /// Subtracts one from the counter.
    fn decrease(&self);

    /// Reads the counter.
    fn get(&self) -> usize;
}

impl AtomicUsizeExtensions for Arc<AtomicUsize> {
    fn increase(&self) {
        self.fetch_add(1, std::sync::atomic::Ordering::SeqCst);
    }

    fn decrease(&self) {
        self.fetch_sub(1, std::sync::atomic::Ordering::SeqCst);
    }

    fn get(&self) -> usize {
        self.load(std::sync::atomic::Ordering::SeqCst)
    }
}

} // verus!
