//! Access to an atomic counter through an exclusive borrow.
use vstd::prelude::*;
use core::sync::atomic::{AtomicU64, Ordering};

verus! {

/// The counter's value; the exclusive borrow rules out concurrent writers.
pub fn read_atomic(a: &mut AtomicU64) -> (r: u64) {
    a.load(Ordering::Relaxed)
}

/// Sets the counter to `v`; the exclusive borrow rules out concurrent access.
pub fn write_atomic(a: &mut AtomicU64, v: u64) {
    a.store(v, Ordering::Relaxed);
}

} // verus!
