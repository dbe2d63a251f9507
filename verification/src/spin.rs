//! Spin locks: a plain mutual-exclusion lock and a read-write lock.
//!
//! The read-write lock keeps one word: the number of shared holders in the low bits,
//! plus `EXCLUSIVE_PENDING` while an exclusive locker waits for the shared holders to
//! leave, plus `EXCLUSIVE_LOCKED` while the exclusive lock is held. A waiting locker runs
//! a loop that only ends when the lock is taken or its condition gives up; one round of
//! that loop is `lock_shared_step` or `lock_exclusive_step`, and the state between rounds
//! is a `SharedLockWait` or an `ExclusiveLockWait`.
use vstd::prelude::*;
use core::sync::atomic::{AtomicBool, AtomicUsize, Ordering};
use crate::backoff::BackOff;

verus! {

/// Shared holders beyond this many are a sign that locks are not released.
pub const SHARED_LOCK_THRESHOLD: usize = usize::MAX / 32 + 1;

/// Added to the word by an exclusive locker that waits for the shared holders to leave.
pub const EXCLUSIVE_PENDING: usize = usize::MAX / 4 + 1;

/// Added to the word while the exclusive lock is held.
pub const EXCLUSIVE_LOCKED: usize = usize::MAX / 2 + 1;

/// A very simple spin lock: a flag that is set while the lock is held.
pub struct RawSpin {
    lock: AtomicBool,
}

impl RawSpin {
    /// An unlocked spin lock.
    pub fn new() -> (r: Self) {
        RawSpin { lock: AtomicBool::new(false) }
    }

    /// Whether the lock is held at this moment.
    pub fn is_locked(&self) -> (r: bool) {
        self.lock.load(Ordering::Relaxed)
    }

    /// One attempt to take the lock: sets the flag and succeeds when it was clear.
    pub fn try_lock(&self) -> (r: bool) {
        let was_locked = self.lock.fetch_or(true, Ordering::Acquire);
        !was_locked
    }

    /// Releases the lock.
    pub fn unlock(&self) {
        self.lock.store(false, Ordering::Release);
    }
}

/// Whether an exclusive locker that read `count` after a failed attempt puts its pending
/// mark into the word: it has none in yet and only shared lockers are counted in.
pub open spec fn enqueue_wanted(in_queue: bool, count: usize) -> bool {
    !in_queue && 0 < count < EXCLUSIVE_PENDING
}

/// The word an exclusive locker swaps for the locked mark: its own pending mark alone
/// when it put one in, zero otherwise.
pub open spec fn expected_word(in_queue: bool) -> usize {
    if in_queue {
        EXCLUSIVE_PENDING
    } else {
        0
    }
}

/// Whether an exclusive locker that read `count` puts its pending mark in.
pub fn wants_enqueue(in_queue: bool, count: usize) -> (r: bool)
    ensures
        r == enqueue_wanted(in_queue, count),
{
    !in_queue && count > 0 && count < EXCLUSIVE_PENDING
}

/// The word an exclusive locker swaps for the locked mark.
pub fn exclusive_expected(in_queue: bool) -> (r: usize)
    ensures
        r == expected_word(in_queue),
{
    if in_queue {
        EXCLUSIVE_PENDING
    } else {
        0
    }
}

/// Whether a word read before adding a shared holder lets that holder in: no exclusive
/// locker holds the lock or waits for it.
pub open spec fn shared_admits(count: usize) -> bool {
    count < EXCLUSIVE_PENDING
}

/// Whether a word shows the exclusive lock held.
pub open spec fn exclusive_held(count: usize) -> bool {
    count >= EXCLUSIVE_LOCKED
}

/// Whether a word shows more shared holders than a program that releases its locks can
/// have, in each of the three ranges of the word.
pub open spec fn too_many_shared(count: usize) -> bool {
    if count < EXCLUSIVE_PENDING {
        count > SHARED_LOCK_THRESHOLD
    } else if count < EXCLUSIVE_LOCKED {
        count > EXCLUSIVE_PENDING + SHARED_LOCK_THRESHOLD
    } else {
        count > EXCLUSIVE_LOCKED + SHARED_LOCK_THRESHOLD
    }
}

/// Whether a shared holder that read `count` before counting itself in may keep the lock.
pub fn admits_shared(count: usize) -> (r: bool)
    ensures
        r == shared_admits(count),
{
    count < EXCLUSIVE_PENDING
}

/// Whether `count` shows the exclusive lock held.
pub fn holds_exclusive(count: usize) -> (r: bool)
    ensures
        r == exclusive_held(count),
{
    count >= EXCLUSIVE_LOCKED
}

/// Whether `count` shows more shared holders than a program that releases its locks can
/// have.
pub fn locks_count_exceeded(count: usize) -> (r: bool)
    ensures
        r == too_many_shared(count),
{
    if count < EXCLUSIVE_PENDING {
        count > SHARED_LOCK_THRESHOLD
    } else if count < EXCLUSIVE_LOCKED {
        count > EXCLUSIVE_PENDING + SHARED_LOCK_THRESHOLD
    } else {
        count > EXCLUSIVE_LOCKED + SHARED_LOCK_THRESHOLD
    }
}

/// Outcome of one round of a waiting locker.
#[derive(Clone, Copy, Debug)]
pub enum LockProgress<S> {
    /// The loop ends: `true` when the lock was taken, `false` when the condition gave up.
    Done(bool),
    /// Another round follows from this state.
    Continue(S),
}

/// State of a shared locker between rounds.
#[derive(Clone, Copy, Debug, PartialEq, Eq, Structural)]
pub enum SharedLockWait {
    /// Nothing done yet.
    Start,
    /// Stepped aside for a pending exclusive locker, not counted in the word; holds the
    /// word last read.
    Aside(usize),
    /// Counted in the word as a shared holder, waiting for the exclusive lock to be
    /// released; holds the word last read.
    Registered(usize),
}

impl SharedLockWait {
    /// Whether the next round consults the caller's condition.
    pub open spec fn needs_cond_spec(self) -> bool {
        match self {
            SharedLockWait::Start => false,
            SharedLockWait::Aside(_) => true,
            SharedLockWait::Registered(count) => count >= EXCLUSIVE_LOCKED,
        }
    }

    /// Whether the next round consults the caller's condition.
    pub fn needs_cond(&self) -> (r: bool)
        ensures
            r == self.needs_cond_spec(),
    {
        match self {
            SharedLockWait::Start => false,
            SharedLockWait::Aside(_) => true,
            SharedLockWait::Registered(count) => *count >= EXCLUSIVE_LOCKED,
        }
    }
}

/// State of an exclusive locker between rounds.
#[derive(Clone, Copy, Debug, PartialEq, Eq, Structural)]
pub enum ExclusiveLockWait {
    /// Nothing done yet.
    Start,
    /// The last attempt failed on the word `count`; `in_queue` tells whether this locker
    /// added `EXCLUSIVE_PENDING` to the word.
    Retry { in_queue: bool, count: usize },
}

impl ExclusiveLockWait {
    /// Whether the next round consults the caller's condition.
    pub open spec fn needs_cond_spec(self) -> bool {
        self is Retry
    }

    /// Whether the next round consults the caller's condition.
    pub fn needs_cond(&self) -> (r: bool)
        ensures
            r == self.needs_cond_spec(),
    {
        match self {
            ExclusiveLockWait::Start => false,
            ExclusiveLockWait::Retry { .. } => true,
        }
    }
}

/// Whether `count` shows an exclusive locker pending while the exclusive lock is not
/// held.
pub open spec fn exclusive_pending_spec(count: usize) -> bool {
    EXCLUSIVE_PENDING <= count < EXCLUSIVE_LOCKED
}

/// Whether `count` shows an exclusive locker pending while the exclusive lock is not
/// held.
pub fn exclusive_pending(count: usize) -> (r: bool)
    ensures
        r == exclusive_pending_spec(count),
{
    EXCLUSIVE_PENDING <= count && count < EXCLUSIVE_LOCKED
}

/// The word with an exclusive locker's pending mark added to `count`.
pub fn enqueue_word(count: usize) -> (r: usize)
    requires
        count < EXCLUSIVE_PENDING,
    ensures
        r == count + EXCLUSIVE_PENDING,
{
    count + EXCLUSIVE_PENDING
}

/// What an exclusive locker knows after trying to add its pending mark to the word
/// `count`: when the exchange succeeded it is in the queue and the word holds the mark;
/// otherwise it is not, and the word is the one the exchange found.
pub open spec fn enqueue_outcome_spec(count: usize, result: Result<usize, usize>) -> (bool, usize) {
    match result {
        Ok(_) => (true, (count + EXCLUSIVE_PENDING) as usize),
        Err(found) => (false, found),
    }
}

/// What an exclusive locker knows after trying to add its pending mark to `count`.
pub fn enqueue_outcome(count: usize, result: Result<usize, usize>) -> (r: (bool, usize))
    requires
        count < EXCLUSIVE_PENDING,
    ensures
        r == enqueue_outcome_spec(count, result),
{
    match result {
        Ok(_) => (true, enqueue_word(count)),
        Err(found) => (false, found),
    }
}

/// The round's outcome after an exclusive locker tried to swap its expected word for
/// the locked mark: done and holding the lock when the exchange succeeded, another round
/// with the word found otherwise.
pub open spec fn exclusive_attempt_outcome_spec(in_queue: bool, result: Result<usize, usize>) -> LockProgress<ExclusiveLockWait> {
    match result {
        Ok(_) => LockProgress::Done(true),
        Err(found) => LockProgress::Continue(ExclusiveLockWait::Retry { in_queue, count: found }),
    }
}

/// The round's outcome after an exclusive locker tried to take the lock.
pub fn exclusive_attempt_outcome(in_queue: bool, result: Result<usize, usize>) -> (r: LockProgress<ExclusiveLockWait>)
    ensures
        r == exclusive_attempt_outcome_spec(in_queue, result),
{
    match result {
        Ok(_) => LockProgress::Done(true),
        Err(found) => LockProgress::Continue(ExclusiveLockWait::Retry { in_queue, count: found }),
    }
}

/// A read-write spin lock over one word; see the module documentation for its layout.
pub struct RawRwSpin {
    lock: AtomicUsize,
}

impl RawRwSpin {
    /// An unlocked lock.
    pub fn new() -> (r: Self) {
        RawRwSpin { lock: AtomicUsize::new(0) }
    }

    /// Whether the word read now shows the exclusive lock held (a hint only).
    pub fn is_locked_exclusive(&self) -> (r: bool) {
        let count = self.lock.load(Ordering::Relaxed);
        holds_exclusive(count)
    }

    /// Whether the word read now shows any holder or waiter (a hint only).
    pub fn is_locked(&self) -> (r: bool) {
        let count = self.lock.load(Ordering::Relaxed);
        count > 0
    }

    /// One attempt to take a shared lock: counts itself in, and counts itself out again
    /// when an exclusive locker holds the lock or waits for it.
    pub fn try_lock_shared(&self) -> (r: bool) {
        let count = self.lock.fetch_add(1, Ordering::Acquire);
        if admits_shared(count) {
            true
        } else {
            let _ = self.lock.fetch_sub(1, Ordering::Relaxed);
            false
        }
    }

    /// One round of a shared locker that waits while `cond` holds; `cond` is the caller's
    /// condition, read only where `state.needs_cond()`.
    ///
    /// From `Start` it counts itself in: it is done when no exclusive locker was there,
    /// steps aside (counting itself out) for a pending one, and stays counted in to wait
    /// for a held one. Aside, it gives up when `cond` is false, counts itself in again
    /// once no exclusive locker is pending, and otherwise waits and reads the word.
    /// Counted in, it is done once the word shows no exclusive lock held, gives up
    /// (counting itself out) when `cond` is false, and otherwise waits and reads the word.
    pub fn lock_shared_step(
        &self,
        state: SharedLockWait,
        cond: bool,
        backoff: &mut BackOff,
    ) -> (r: LockProgress<SharedLockWait>)
        requires
            old(backoff).wf(),
        ensures
            final(backoff).wf(),
            state is Start ==> (r matches LockProgress::Done(acquired) && acquired) || (
            r matches LockProgress::Continue(next) && (next is Aside || (
            next matches SharedLockWait::Registered(count) && count >= EXCLUSIVE_PENDING))),
            state is Aside ==> (!cond <==> r == LockProgress::<SharedLockWait>::Done(false)),
            state is Aside && cond ==> r matches LockProgress::Continue(_),
            state matches SharedLockWait::Registered(count) && count < EXCLUSIVE_LOCKED ==> r
                == LockProgress::<SharedLockWait>::Done(true),
            state matches SharedLockWait::Registered(count) && count >= EXCLUSIVE_LOCKED && !cond
                ==> r == LockProgress::<SharedLockWait>::Done(false),
            state matches SharedLockWait::Registered(count) && count >= EXCLUSIVE_LOCKED && cond
                ==> r matches LockProgress::Continue(SharedLockWait::Registered(_)),
            r == LockProgress::<SharedLockWait>::Done(true) ==> !(state is Aside),
    {
        match state {
            SharedLockWait::Start => {
                let count = self.lock.fetch_add(1, Ordering::Acquire);
                if admits_shared(count) {
                    LockProgress::Done(true)
                } else if !holds_exclusive(count) {
                    // An exclusive locker is pending: make room for it.
                    let count = self.lock.fetch_sub(1, Ordering::Relaxed);
                    LockProgress::Continue(SharedLockWait::Aside(count))
                } else {
                    LockProgress::Continue(SharedLockWait::Registered(count))
                }
            },
            SharedLockWait::Aside(count) => {
                if !cond {
                    LockProgress::Done(false)
                } else if !exclusive_pending(count) {
                    // No exclusive locker pending any more: get back in line.
                    let count = self.lock.fetch_add(1, Ordering::Acquire);
                    LockProgress::Continue(SharedLockWait::Registered(count))
                } else {
                    backoff.wait();
                    let count = self.lock.load(Ordering::Relaxed);
                    LockProgress::Continue(SharedLockWait::Aside(count))
                }
            },
            SharedLockWait::Registered(count) => {
                if !holds_exclusive(count) {
                    LockProgress::Done(true)
                } else if !cond {
                    let _ = self.lock.fetch_sub(1, Ordering::Relaxed);
                    LockProgress::Done(false)
                } else {
                    backoff.wait();
                    let count = self.lock.load(Ordering::Acquire);
                    LockProgress::Continue(SharedLockWait::Registered(count))
                }
            },
        }
    }

    /// Releases a shared lock.
    pub fn unlock_shared(&self) {
        let _ = self.lock.fetch_sub(1, Ordering::Release);
    }

    /// One attempt to take the exclusive lock: succeeds when the word is zero.
    pub fn try_lock_exclusive(&self) -> (r: bool) {
        let r = self.lock.compare_exchange(0, EXCLUSIVE_LOCKED, Ordering::Acquire, Ordering::Relaxed);
        r.is_ok()
    }

    /// One round of an exclusive locker that waits while `cond` holds; `cond` is the
    /// caller's condition, read only where `state.needs_cond()`.
    ///
    /// From `Start` it tries to swap a zero word for `EXCLUSIVE_LOCKED`. After a failed
    /// attempt it gives up when `cond` is false (taking its pending mark out of the word
    /// if it had put one in); otherwise, while only shared holders are there, it puts its
    /// pending mark in so that no new shared holder enters, waits unless the word already
    /// is what it expects, and tries again to swap the expected word (zero, or its own
    /// pending mark) for `EXCLUSIVE_LOCKED`.
    pub fn lock_exclusive_step(
        &self,
        state: ExclusiveLockWait,
        cond: bool,
        backoff: &mut BackOff,
    ) -> (r: LockProgress<ExclusiveLockWait>)
        requires
            old(backoff).wf(),
        ensures
            final(backoff).wf(),
            state is Start ==> r matches LockProgress::Done(acquired) && acquired || r matches LockProgress::Continue(
                ExclusiveLockWait::Retry { in_queue: false, count: _ },
            ),
            state is Retry && !cond ==> r == LockProgress::<ExclusiveLockWait>::Done(false),
            state is Retry && cond ==> r matches LockProgress::Done(acquired) && acquired
                || r matches LockProgress::Continue(ExclusiveLockWait::Retry { .. }),
            state matches ExclusiveLockWait::Retry { in_queue, count: _ } && in_queue && cond ==> (
            r matches LockProgress::Done(acquired) && acquired || r matches LockProgress::Continue(
                ExclusiveLockWait::Retry { in_queue: true, count: _ },
            )),
            state is Retry ==> (r matches LockProgress::Continue(
                ExclusiveLockWait::Retry { in_queue: now_in_queue, count: _ },
            ) && now_in_queue ==> state->in_queue || enqueue_wanted(state->in_queue, state->count)),
    {
        match state {
            ExclusiveLockWait::Start => {
                let r = self.lock.compare_exchange_weak(
                    exclusive_expected(false),
                    EXCLUSIVE_LOCKED,
                    Ordering::Acquire,
                    Ordering::Relaxed,
                );
                exclusive_attempt_outcome(false, r)
            },
            ExclusiveLockWait::Retry { in_queue, count } => {
                if !cond {
                    if in_queue {
                        // Take the pending mark out again.
                        let _ = self.lock.fetch_sub(EXCLUSIVE_PENDING, Ordering::Relaxed);
                    }
                    return LockProgress::Done(false);
                }
                let mut in_queue = in_queue;
                let mut count = count;
                if wants_enqueue(in_queue, count) {
                    // Only shared holders: mark this locker as pending so that no new
                    // shared holder enters.
                    let r = self.lock.compare_exchange_weak(
                        count,
                        enqueue_word(count),
                        Ordering::Relaxed,
                        Ordering::Relaxed,
                    );
                    let (queued, found) = enqueue_outcome(count, r);
                    in_queue = queued;
                    count = found;
                }
                let expected = exclusive_expected(in_queue);
                if count != expected {
                    // Wait only when the failure was not spurious.
                    backoff.wait();
                }
                let r = self.lock.compare_exchange_weak(
                    expected,
                    EXCLUSIVE_LOCKED,
                    Ordering::Acquire,
                    Ordering::Relaxed,
                );
                exclusive_attempt_outcome(in_queue, r)
            },
        }
    }

    /// Releases the exclusive lock.
    pub fn unlock_exclusive(&self) {
        let _ = self.lock.fetch_sub(EXCLUSIVE_LOCKED, Ordering::Release);
    }
}

/// Lock word made of `shared` counted-in shared lockers, `pending` exclusive pending
/// marks and `locked` exclusive holders.
pub open spec fn encode_word(shared: nat, pending: nat, locked: nat) -> int {
    shared + pending * EXCLUSIVE_PENDING + locked * EXCLUSIVE_LOCKED
}

/// Reading the lock word: with fewer counted-in shared lockers than `EXCLUSIVE_PENDING`
/// and at most one pending mark and one exclusive holder, the word fits in a `usize`; it
/// admits a new shared holder exactly when there is neither a pending mark nor an
/// exclusive holder, shows the exclusive lock held exactly when there is an exclusive
/// holder, and the values an exclusive locker compares against (zero, the pending mark
/// alone, a positive count below the pending mark) mean what the locker takes them for.
pub proof fn law_word_decoding(shared: nat, pending: nat, locked: nat)
    requires
        shared < EXCLUSIVE_PENDING,
        pending <= 1,
        locked <= 1,
    ensures
        0 <= encode_word(shared, pending, locked) <= usize::MAX,
        shared_admits(encode_word(shared, pending, locked) as usize) <==> pending == 0 && locked
            == 0,
        exclusive_held(encode_word(shared, pending, locked) as usize) <==> locked == 1,
        encode_word(shared, pending, locked) == 0 <==> shared == 0 && pending == 0 && locked == 0,
        encode_word(shared, pending, locked) == EXCLUSIVE_PENDING <==> shared == 0 && pending == 1
            && locked == 0,
        0 < encode_word(shared, pending, locked) < EXCLUSIVE_PENDING <==> shared > 0 && pending
            == 0 && locked == 0,
{
    let w = encode_word(shared, pending, locked);
    // The locked mark is twice the pending mark, and the two marks together with a full
    // count of shared lockers fill the word exactly.
    assert(EXCLUSIVE_LOCKED == 2 * EXCLUSIVE_PENDING);
    assert(EXCLUSIVE_LOCKED + EXCLUSIVE_PENDING + (EXCLUSIVE_PENDING - 1) == usize::MAX);
    // Each mark counts once or not at all.
    assert(pending * EXCLUSIVE_PENDING == if pending == 0 { 0 } else { EXCLUSIVE_PENDING as int })
        by (nonlinear_arith)
        requires
            pending <= 1,
    ;
    assert(locked * EXCLUSIVE_LOCKED == if locked == 0 { 0 } else { EXCLUSIVE_LOCKED as int })
        by (nonlinear_arith)
        requires
            locked <= 1,
    ;
    if locked == 0 {
        if pending == 0 {
            // Shared lockers only: the word is their count, below the pending mark.
            assert(w == shared);
        } else {
            // The pending mark on top of the shared lockers, below the locked mark.
            assert(w == shared + EXCLUSIVE_PENDING);
            assert(EXCLUSIVE_PENDING <= w < EXCLUSIVE_LOCKED);
        }
    } else {
        if pending == 0 {
            assert(w == shared + EXCLUSIVE_LOCKED);
            assert(EXCLUSIVE_LOCKED <= w < EXCLUSIVE_LOCKED + EXCLUSIVE_PENDING);
        } else {
            // Both marks: still within the word, since shared stays below the pending mark.
            assert(w == shared + EXCLUSIVE_PENDING + EXCLUSIVE_LOCKED);
            assert(EXCLUSIVE_LOCKED <= w <= usize::MAX);
        }
    }
}

/// The read-write spin lock seen from all lockers at once: `granted` shared lockers hold
/// the lock, `waiting` shared lockers are counted in the word without holding it,
/// `pending` is the number of exclusive pending marks and `locked` the number of exclusive
/// holders.
pub struct RwSpinModel {
    pub granted: nat,
    pub waiting: nat,
    pub pending: nat,
    pub locked: nat,
}

/// One atomic operation of a locker on the word.
pub enum RwSpinEvent {
    /// A shared locker counts itself in for its first attempt (`try_lock_shared`, and the
    /// `Start` round); it holds the lock when the word admitted it.
    SharedEnter,
    /// A shared locker that stepped aside counts itself in again; it holds the lock unless
    /// the word shows the exclusive lock held.
    SharedRejoin,
    /// A counted-in shared locker that does not hold the lock counts itself out (stepping
    /// aside, giving up, or a failed `try_lock_shared`).
    SharedLeaveWaiting,
    /// A counted-in shared locker reads the word and holds the lock once it shows no
    /// exclusive lock held.
    SharedRecheck,
    /// A shared holder releases its lock.
    SharedUnlock,
    /// An exclusive locker swaps a zero word for the locked mark.
    ExclusiveTry,
    /// An exclusive locker adds its pending mark to a word of shared lockers only.
    ExclusiveEnqueue,
    /// The exclusive locker with the pending mark swaps the pending mark alone for the
    /// locked mark.
    ExclusiveTryQueued,
    /// The exclusive locker with the pending mark takes it out again.
    ExclusiveDequeue,
    /// The exclusive holder releases the lock.
    ExclusiveUnlock,
}

/// The lock word of a model state.
pub open spec fn model_word(m: RwSpinModel) -> int {
    encode_word(m.granted + m.waiting, m.pending, m.locked)
}

/// What must hold of a model state: bounded counts, and no shared holder while the
/// exclusive lock is held.
pub open spec fn rw_spin_inv(m: RwSpinModel) -> bool {
    &&& m.granted + m.waiting < EXCLUSIVE_PENDING
    &&& m.pending <= 1
    &&& m.locked <= 1
    &&& m.granted > 0 ==> m.locked == 0
}

/// Whether a locker can perform `e` in state `m`: the counts it takes from are positive,
/// and a new count-in leaves room below the pending mark.
pub open spec fn rw_spin_enabled(m: RwSpinModel, e: RwSpinEvent) -> bool {
    match e {
        RwSpinEvent::SharedEnter => m.granted + m.waiting + 1 < EXCLUSIVE_PENDING,
        RwSpinEvent::SharedRejoin => m.granted + m.waiting + 1 < EXCLUSIVE_PENDING,
        RwSpinEvent::SharedLeaveWaiting => m.waiting > 0,
        RwSpinEvent::SharedRecheck => m.waiting > 0,
        RwSpinEvent::SharedUnlock => m.granted > 0,
        RwSpinEvent::ExclusiveTry => true,
        RwSpinEvent::ExclusiveEnqueue => true,
        RwSpinEvent::ExclusiveTryQueued => m.pending == 1,
        RwSpinEvent::ExclusiveDequeue => m.pending == 1,
        RwSpinEvent::ExclusiveUnlock => m.locked == 1,
    }
}

/// State after event `e`, decided on the word as the lockers decide it.
pub open spec fn rw_spin_next(m: RwSpinModel, e: RwSpinEvent) -> RwSpinModel {
    let word = model_word(m) as usize;
    match e {
        RwSpinEvent::SharedEnter => if shared_admits(word) {
            RwSpinModel { granted: m.granted + 1, ..m }
        } else {
            RwSpinModel { waiting: m.waiting + 1, ..m }
        },
        RwSpinEvent::SharedRejoin => if !exclusive_held(word) {
            RwSpinModel { granted: m.granted + 1, ..m }
        } else {
            RwSpinModel { waiting: m.waiting + 1, ..m }
        },
        RwSpinEvent::SharedLeaveWaiting => RwSpinModel { waiting: (m.waiting - 1) as nat, ..m },
        RwSpinEvent::SharedRecheck => if !exclusive_held(word) {
            RwSpinModel { granted: m.granted + 1, waiting: (m.waiting - 1) as nat, ..m }
        } else {
            m
        },
        RwSpinEvent::SharedUnlock => RwSpinModel { granted: (m.granted - 1) as nat, ..m },
        RwSpinEvent::ExclusiveTry => if word == expected_word(false) {
            RwSpinModel { locked: 1, ..m }
        } else {
            m
        },
        RwSpinEvent::ExclusiveEnqueue => if enqueue_wanted(false, word) {
            RwSpinModel { pending: 1, ..m }
        } else {
            m
        },
        RwSpinEvent::ExclusiveTryQueued => if word == expected_word(true) {
            RwSpinModel { pending: 0, locked: 1, ..m }
        } else {
            m
        },
        RwSpinEvent::ExclusiveDequeue => RwSpinModel { pending: 0, ..m },
        RwSpinEvent::ExclusiveUnlock => RwSpinModel { locked: 0, ..m },
    }
}

/// Mutual exclusion of the read-write spin lock: every operation keeps the counts
/// bounded and never lets a shared holder and the exclusive holder hold the lock at the
/// same time, nor two exclusive holders.
pub proof fn law_rw_spin_exclusion(m: RwSpinModel, e: RwSpinEvent)
    requires
        rw_spin_inv(m),
        rw_spin_enabled(m, e),
    ensures
        rw_spin_inv(rw_spin_next(m, e)),
{
    law_word_decoding(m.granted + m.waiting, m.pending, m.locked);
}

/// The lock starts with nobody in it.
pub proof fn law_rw_spin_initial()
    ensures
        rw_spin_inv(RwSpinModel { granted: 0, waiting: 0, pending: 0, locked: 0 }),
        model_word(RwSpinModel { granted: 0, waiting: 0, pending: 0, locked: 0 }) == 0,
{
}

} // verus!
