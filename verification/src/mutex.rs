//! Mutex over a condition variable: state zero is unlocked, state one is locked.
use vstd::prelude::*;
use core::sync::atomic::Ordering;
use crate::condvar::{CondVar, CondVarWake};

verus! {

/// State of an unlocked mutex.
pub const UNLOCKED: u8 = 0;

/// State of a locked mutex.
pub const LOCKED: u8 = 1;

/// The state a locker moves to from `state`: locked from unlocked; `None` (wait) when
/// the mutex is locked.
pub fn lock_transition(state: u8) -> (r: Option<u8>)
    ensures
        r == (if state == UNLOCKED {
            Some(LOCKED)
        } else {
            None::<u8>
        }),
{
    if state == UNLOCKED {
        Some(LOCKED)
    } else {
        None
    }
}

/// Raw mutex whose waiters wait on a condition variable.
pub struct RawMutex<T> {
    condvar: CondVar<T>,
}

impl<T> RawMutex<T> {
    /// An unlocked mutex.
    pub fn new() -> (r: Self) {
        RawMutex { condvar: CondVar::zero() }
    }

    /// The condition variable that holds the state.
    pub closed spec fn condvar_spec(&self) -> CondVar<T> {
        self.condvar
    }

    /// The condition variable that holds the state.
    pub fn condvar(&self) -> (r: &CondVar<T>)
        ensures
            *r == self.condvar_spec(),
    {
        &self.condvar
    }

    /// Whether the state read now is locked.
    pub fn is_locked(&self) -> (r: bool) {
        self.condvar.load(Ordering::Relaxed) == LOCKED
    }

    /// One attempt to move the state from unlocked to locked.
    pub fn try_lock(&self) -> (r: bool) {
        self.condvar.optimistic_update(Ordering::Acquire, UNLOCKED, LOCKED)
    }

    /// Sets the state to unlocked.
    pub fn unlock(&self) {
        let _ = self.condvar.set(CondVarWake::One, Ordering::Release, UNLOCKED);
    }
}

impl<T> Default for RawMutex<T> {
    fn default() -> (r: Self) {
        RawMutex::new()
    }
}

} // verus!
