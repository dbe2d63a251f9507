//! Read-write lock over a condition variable: state zero is unlocked, a state from one to
//! `MAX_SHARED` counts shared holders, `EXCLUSIVE_LOCK` marks the exclusive holder.
use vstd::prelude::*;
use core::sync::atomic::Ordering;
use crate::condvar::{CondVar, CondVarWake};

verus! {

/// State of an unlocked lock.
pub const UNLOCKED: u8 = 0;

/// Largest number of shared holders.
pub const MAX_SHARED: u8 = 254;

/// State while the exclusive lock is held.
pub const EXCLUSIVE_LOCK: u8 = 255;

/// The state a shared locker moves to from `state`: one more holder; `None` (wait) while
/// the exclusive lock is held or the holder count is at its maximum.
pub fn shared_lock_transition(state: u8) -> (r: Option<u8>)
    ensures
        r == (if state == EXCLUSIVE_LOCK || state == MAX_SHARED {
            None::<u8>
        } else {
            Some((state + 1) as u8)
        }),
{
    if state == EXCLUSIVE_LOCK || state == MAX_SHARED {
        None
    } else {
        Some(state + 1)
    }
}

/// The state an exclusive locker moves to from `state`: exclusively locked from
/// unlocked; `None` (wait) otherwise.
pub fn exclusive_lock_transition(state: u8) -> (r: Option<u8>)
    ensures
        r == (if state == UNLOCKED {
            Some(EXCLUSIVE_LOCK)
        } else {
            None::<u8>
        }),
{
    if state == UNLOCKED {
        Some(EXCLUSIVE_LOCK)
    } else {
        None
    }
}

/// The state after a shared holder leaves `state`, which must not be unlocked.
pub fn shared_unlock_transition(state: u8) -> (r: u8)
    requires
        state != UNLOCKED,
    ensures
        r == state - 1,
{
    state - 1
}

/// A shared locker only enters a lock that is not held exclusively, never makes the
/// state look exclusive, and leaving undoes entering.
pub proof fn law_shared_lock_round_trip(state: u8)
    requires
        state != EXCLUSIVE_LOCK,
        state != MAX_SHARED,
    ensures
        (state + 1) as u8 != EXCLUSIVE_LOCK,
        (state + 1) as u8 <= MAX_SHARED,
        (state + 1) as u8 != UNLOCKED,
        ((state + 1) as u8) - 1 == state,
{
}

/// Read-write lock whose waiters wait on a condition variable.
pub struct RawRwLock<T> {
    condvar: CondVar<T>,
}

impl<T> RawRwLock<T> {
    /// An unlocked lock.
    pub fn new() -> (r: Self) {
        RawRwLock { condvar: CondVar::zero() }
    }

    /// The condition variable that holds the state.
    pub closed spec fn condvar_spec(&self) -> CondVar<T> {
        self.condvar
    }

    /// The condition variable that holds the state.
    pub fn condvar(&self) -> (r: &CondVar<T>)
        ensures
            *r == self.condvar_spec(),
    {
        &self.condvar
    }

    /// Whether the state read now shows any holder.
    pub fn is_locked(&self) -> (r: bool) {
        self.condvar.load(Ordering::Relaxed) != UNLOCKED
    }

    /// One attempt to move the state from unlocked to one shared holder.
    pub fn try_lock_shared(&self) -> (r: bool) {
        self.condvar.optimistic_update(Ordering::Acquire, UNLOCKED, 1)
    }

    /// One attempt to move the state from unlocked to exclusively locked.
    pub fn try_lock_exclusive(&self) -> (r: bool) {
        self.condvar.optimistic_update(Ordering::Acquire, UNLOCKED, EXCLUSIVE_LOCK)
    }

    /// Sets the state to unlocked after the exclusive holder leaves.
    pub fn unlock_exclusive(&self) {
        let _ = self.condvar.set(CondVarWake::One, Ordering::Release, UNLOCKED);
    }
}

} // verus!
