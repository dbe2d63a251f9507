//! Atomic condition variable: an 8-bit state that threads update and wait on.
//!
//! The state sits in the low eight bits of an atomic word. An update is a
//! compare-and-swap from the state last read; a waiter backs off and reads the state
//! again. Loops that repeat these rounds until a caller's function is satisfied are run by
//! the caller, one `update_wait_break_step` at a time.
use vstd::prelude::*;
use core::marker::PhantomData;
use core::sync::atomic::{AtomicUsize, Ordering};
use crate::backoff::BackOff;

verus! {

/// Number of bits of the state.
pub const STATE_BITS: u32 = 8;

/// Mask of the state bits in the word.
pub const STATE_MASK: usize = 255;

/// What a caller's function asks for, given the current state.
#[derive(Clone, Copy, Debug, PartialEq, Eq, Structural)]
pub enum CondVarUpdateOrWait {
    /// Replace the state with this one, unless it changed meanwhile.
    Update(u8),
    /// Wait for the state to change.
    Wait,
    /// Stop and return the state.
    Break,
}

/// Which waiting threads an update wakes.
#[derive(Clone, Copy, Debug, PartialEq, Eq, Structural)]
pub enum CondVarWake {
    /// Wakes no waiting thread.
    Nobody,
    /// Wakes one waiting thread.
    One,
    /// Wakes all waiting threads.
    All,
}

/// Outcome of one round of an update-or-wait loop.
#[derive(Clone, Copy, Debug)]
pub enum CondVarStep {
    /// The loop ends: `Ok` with the state that was replaced, or `Err` with the state
    /// that the caller's function stopped at.
    Done(Result<u8, u8>),
    /// Another round follows with this state.
    Continue(u8),
}

/// Orderings that a failed compare-and-swap may use for its load.
pub open spec fn is_load_ordering(order: Ordering) -> bool {
    order is Relaxed || order is Acquire || order is SeqCst
}

/// Orderings that a store may use.
pub open spec fn is_store_ordering(order: Ordering) -> bool {
    order is Relaxed || order is Release || order is SeqCst
}

/// The weakest ordering that is at least as strong as both `lhs` and `rhs`.
pub open spec fn merged_ordering(lhs: Ordering, rhs: Ordering) -> Ordering {
    match (lhs, rhs) {
        (Ordering::SeqCst, _) => Ordering::SeqCst,
        (_, Ordering::SeqCst) => Ordering::SeqCst,
        (Ordering::AcqRel, _) => Ordering::AcqRel,
        (_, Ordering::AcqRel) => Ordering::AcqRel,
        (Ordering::Acquire, Ordering::Release) => Ordering::AcqRel,
        (Ordering::Release, Ordering::Acquire) => Ordering::AcqRel,
        (Ordering::Acquire, _) => Ordering::Acquire,
        (_, Ordering::Acquire) => Ordering::Acquire,
        (Ordering::Release, _) => Ordering::Release,
        (_, Ordering::Release) => Ordering::Release,
        _ => Ordering::Relaxed,
    }
}

/// The weakest ordering that is at least as strong as both `lhs` and `rhs`.
pub fn merge_ordering(lhs: Ordering, rhs: Ordering) -> (r: Ordering)
    ensures
        r == merged_ordering(lhs, rhs),
        is_load_ordering(lhs) && is_load_ordering(rhs) ==> is_load_ordering(r),
        r == lhs || r == rhs || (r is AcqRel),
{
    match (lhs, rhs) {
        (Ordering::SeqCst, _) => Ordering::SeqCst,
        (_, Ordering::SeqCst) => Ordering::SeqCst,
        (Ordering::AcqRel, _) => Ordering::AcqRel,
        (_, Ordering::AcqRel) => Ordering::AcqRel,
        (Ordering::Acquire, Ordering::Release) => Ordering::AcqRel,
        (Ordering::Release, Ordering::Acquire) => Ordering::AcqRel,
        (Ordering::Acquire, _) => Ordering::Acquire,
        (_, Ordering::Acquire) => Ordering::Acquire,
        (Ordering::Release, _) => Ordering::Release,
        (_, Ordering::Release) => Ordering::Release,
        _ => Ordering::Relaxed,
    }
}

/// State held by a word.
pub open spec fn state_of_word(word: usize) -> u8 {
    (word & STATE_MASK) as u8
}

/// State held by `word`.
pub fn word_state(word: usize) -> (r: u8)
    ensures
        r == state_of_word(word),
{
    (word & STATE_MASK) as u8
}

/// Word that holds `state` and no waiter.
pub fn state_word(state: u8) -> (r: usize)
    ensures
        r == state as usize,
        state_of_word(r) == state,
{
    let w = state as usize;
    assert(w & 255 == w) by (bit_vector)
        requires
            w < 256,
    ;
    w
}

/// Condition variable over an 8-bit state.
pub struct CondVar<T> {
    atomic: AtomicUsize,
    marker: PhantomData<T>,
}

impl<T> CondVar<T> {
    /// Condition variable with state zero.
    pub fn zero() -> (r: Self) {
        CondVar { atomic: AtomicUsize::new(0), marker: PhantomData }
    }

    /// Condition variable with `state`.
    pub fn new(state: u8) -> (r: Self) {
        CondVar { atomic: AtomicUsize::new(state_word(state)), marker: PhantomData }
    }

    /// The state at this moment. A load cannot have release semantics.
    pub fn load(&self, load: Ordering) -> (r: u8)
        requires
            is_load_ordering(load),
    {
        let word = self.atomic.load(load);
        word_state(word)
    }

    /// Replaces `old_state` with `new_state` if that is the state now. Returns whether it
    /// did.
    pub fn optimistic_update(&self, update: Ordering, old_state: u8, new_state: u8) -> (r: bool) {
        let r = self.atomic.compare_exchange(
            state_word(old_state),
            state_word(new_state),
            update,
            Ordering::Relaxed,
        );
        r.is_ok()
    }

    /// Sets the state to `new_state` and returns the state it replaced.
    pub fn set(&self, wake: CondVarWake, update: Ordering, new_state: u8) -> (r: u8) {
        let word = self.atomic.swap(state_word(new_state), merge_ordering(update, Ordering::Acquire));
        word_state(word)
    }

    /// One round of an update-or-wait loop from the state `cur`, doing what `decision`
    /// (the caller's function applied to `cur`) asks.
    ///
    /// `Update(new)` replaces `cur` with `new` if it is still the state, and ends with
    /// `Ok(cur)`; if the state changed it backs off and continues with the state found.
    /// `Wait` backs off and continues with the state read then. `Break` ends with
    /// `Err(cur)`.
    pub fn update_wait_break_step(
        &self,
        load: Ordering,
        update: Ordering,
        cur: u8,
        decision: CondVarUpdateOrWait,
        backoff: &mut BackOff,
    ) -> (r: CondVarStep)
        requires
            is_load_ordering(load),
            old(backoff).wf(),
        ensures
            final(backoff).wf(),
            decision is Break ==> r == CondVarStep::Done(Err(cur)),
            decision is Wait ==> r is Continue,
            decision is Update ==> r == CondVarStep::Done(Ok(cur)) || r is Continue,
    {
        match decision {
            CondVarUpdateOrWait::Update(new_state) => {
                let r = self.atomic.compare_exchange_weak(
                    state_word(cur),
                    state_word(new_state),
                    update,
                    merge_ordering(load, Ordering::Acquire),
                );
                match r {
                    Ok(_) => CondVarStep::Done(Ok(cur)),
                    Err(word) => {
                        backoff.wait();
                        CondVarStep::Continue(word_state(word))
                    },
                }
            },
            CondVarUpdateOrWait::Wait => {
                backoff.wait();
                let word = self.atomic.load(merge_ordering(load, Ordering::Acquire));
                CondVarStep::Continue(word_state(word))
            },
            CondVarUpdateOrWait::Break => CondVarStep::Done(Err(cur)),
        }
    }
}

} // verus!
