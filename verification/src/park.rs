//! Park and unpark: how a waiting thread pauses and how another thread wakes it.
use vstd::prelude::*;
use crate::backoff::spin_hint;

verus! {

/// A token that wakes a paused thread.
pub trait Unpark: Clone {
    /// Wakes the thread this token belongs to.
    fn unpark(&self);
}

/// A way to pause the current thread until a token from `unpark_token` wakes it. Waking
/// up without such a call is allowed.
pub trait Park<T: Unpark> {
    /// A token that wakes this thread.
    fn unpark_token(&self) -> T;

    /// Pauses the current thread.
    fn park(&self);
}

/// An unpark token whose pausing side can be made without arguments.
pub trait DefaultPark: Unpark + Sized {
    type Park: Park<Self>;

    /// The pausing side for the current thread.
    fn default_park() -> Self::Park;
}

/// Token of `ParkYield`: waking does nothing, since the paused thread only yields.
#[derive(Clone, Copy)]
pub struct UnparkYield;

impl Unpark for UnparkYield {
    fn unpark(&self) {
    }
}

/// Pausing by yielding the processor instead of blocking; without threads to yield to it
/// busy-waits once.
pub struct ParkYield;

impl Park<UnparkYield> for ParkYield {
    fn unpark_token(&self) -> UnparkYield {
        UnparkYield
    }

    fn park(&self) {
        spin_hint();
    }
}

} // verus!
