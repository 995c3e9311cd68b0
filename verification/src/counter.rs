//! The shared pass counter.
//!
//! One counter is shared by all workers and read by the monitor. It is only
//! ever added to, with relaxed ordering: the monitor wants an approximate
//! count, not a synchronisation point.

use std::sync::atomic::AtomicU64;
use std::sync::atomic::Ordering;
use vstd::prelude::*;

verus! {

/// A count of completed passes, shared between threads.
///
/// Its value is outside what a contract can speak of: another thread may add
/// to it between any two steps. What this type fixes is its interface: a
/// counter starts at zero, and the only change it offers is adding one.
pub struct SharedCounter {
    passes: AtomicU64,
}

impl SharedCounter {
    /// A counter at zero.
    pub fn new() -> SharedCounter {
        SharedCounter { passes: AtomicU64::new(0) }
    }

    /// The count as this thread sees it now.
    pub fn load(&self) -> u64 {
        self.passes.load(Ordering::Relaxed)
    }
}

/// Adds one completed pass to the shared counter.
pub fn increment_global_metrics(counter: &SharedCounter) {
    counter.passes.fetch_add(1, Ordering::Relaxed);
}

} // verus!
