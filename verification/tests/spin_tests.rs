use amity::backoff::BackOff;
use amity::spin::{
    enqueue_outcome, enqueue_word, exclusive_attempt_outcome, exclusive_expected,
    exclusive_pending, wants_enqueue, locks_count_exceeded, ExclusiveLockWait, LockProgress, RawRwSpin, RawSpin, SharedLockWait,
    EXCLUSIVE_LOCKED, EXCLUSIVE_PENDING, SHARED_LOCK_THRESHOLD,
};

#[test]
fn raw_spin_try_lock_and_unlock() {
    let lock = RawSpin::new();
    assert!(!lock.is_locked());
    assert!(lock.try_lock());
    assert!(lock.is_locked());
    assert!(!lock.try_lock());
    lock.unlock();
    assert!(!lock.is_locked());
    assert!(lock.try_lock());
}

#[test]
fn raw_rw_spin_single_attempts() {
    let lock = RawRwSpin::new();
    assert!(!lock.is_locked());
    assert!(lock.try_lock_shared());
    assert!(lock.try_lock_shared());
    assert!(lock.is_locked());
    assert!(!lock.is_locked_exclusive());
    assert!(!lock.try_lock_exclusive());
    lock.unlock_shared();
    lock.unlock_shared();
    assert!(!lock.is_locked());
    assert!(lock.try_lock_exclusive());
    assert!(lock.is_locked_exclusive());
    assert!(!lock.try_lock_shared());
    assert!(!lock.try_lock_exclusive());
    lock.unlock_exclusive();
    assert!(!lock.is_locked());
}

#[test]
fn shared_step_waits_for_exclusive_holder() {
    let lock = RawRwSpin::new();
    let mut backoff = BackOff::new();
    assert!(lock.try_lock_exclusive());
    let state = match lock.lock_shared_step(SharedLockWait::Start, true, &mut backoff) {
        LockProgress::Continue(s) => s,
        LockProgress::Done(_) => panic!("the exclusive lock is held"),
    };
    assert_eq!(state, SharedLockWait::Registered(EXCLUSIVE_LOCKED));
    assert!(state.needs_cond());
    let state = match lock.lock_shared_step(state, true, &mut backoff) {
        LockProgress::Continue(s) => s,
        LockProgress::Done(_) => panic!("still held"),
    };
    assert!(matches!(state, SharedLockWait::Registered(_)));
    lock.unlock_exclusive();
    let state = match lock.lock_shared_step(state, true, &mut backoff) {
        LockProgress::Continue(s) => s,
        LockProgress::Done(_) => panic!("the word read last still showed the lock"),
    };
    assert_eq!(state, SharedLockWait::Registered(1));
    assert!(!state.needs_cond());
    assert!(matches!(
        lock.lock_shared_step(state, false, &mut backoff),
        LockProgress::Done(true)
    ));
    lock.unlock_shared();
    assert!(!lock.is_locked());
}

#[test]
fn shared_step_gives_up_and_leaves() {
    let lock = RawRwSpin::new();
    let mut backoff = BackOff::new();
    assert!(lock.try_lock_exclusive());
    let state = match lock.lock_shared_step(SharedLockWait::Start, true, &mut backoff) {
        LockProgress::Continue(s) => s,
        LockProgress::Done(_) => panic!("the exclusive lock is held"),
    };
    assert!(matches!(
        lock.lock_shared_step(state, false, &mut backoff),
        LockProgress::Done(false)
    ));
    lock.unlock_exclusive();
    assert!(!lock.is_locked());
}

#[test]
fn shared_step_acquires_when_free() {
    let lock = RawRwSpin::new();
    let mut backoff = BackOff::new();
    assert!(!SharedLockWait::Start.needs_cond());
    assert!(matches!(
        lock.lock_shared_step(SharedLockWait::Start, false, &mut backoff),
        LockProgress::Done(true)
    ));
    assert!(lock.is_locked());
    lock.unlock_shared();
}

#[test]
fn exclusive_step_enqueues_behind_shared_holder() {
    let lock = RawRwSpin::new();
    let mut backoff = BackOff::new();
    assert!(lock.try_lock_shared());
    let mut state = match lock.lock_exclusive_step(ExclusiveLockWait::Start, true, &mut backoff) {
        LockProgress::Continue(s) => s,
        LockProgress::Done(_) => panic!("a shared holder is there"),
    };
    assert_eq!(state, ExclusiveLockWait::Retry { in_queue: false, count: 1 });
    assert!(state.needs_cond());
    // Spurious failures of the weak exchange may take a few rounds.
    loop {
        match lock.lock_exclusive_step(state, true, &mut backoff) {
            LockProgress::Continue(s) => {
                state = s;
                if let ExclusiveLockWait::Retry { in_queue: true, .. } = s {
                    break;
                }
            }
            LockProgress::Done(_) => panic!("a shared holder is there"),
        }
    }
    // The pending exclusive locker keeps new shared lockers out.
    assert!(!lock.try_lock_shared());
    lock.unlock_shared();
    loop {
        match lock.lock_exclusive_step(state, true, &mut backoff) {
            LockProgress::Continue(s) => state = s,
            LockProgress::Done(acquired) => {
                assert!(acquired);
                break;
            }
        }
    }
    assert!(lock.is_locked_exclusive());
    lock.unlock_exclusive();
    assert!(!lock.is_locked());
}

#[test]
fn exclusive_step_gives_up_and_leaves_queue() {
    let lock = RawRwSpin::new();
    let mut backoff = BackOff::new();
    assert!(lock.try_lock_shared());
    let state = ExclusiveLockWait::Retry { in_queue: false, count: 1 };
    let mut state = state;
    loop {
        match lock.lock_exclusive_step(state, true, &mut backoff) {
            LockProgress::Continue(s) => {
                state = s;
                if let ExclusiveLockWait::Retry { in_queue: true, .. } = s {
                    break;
                }
            }
            LockProgress::Done(_) => panic!("a shared holder is there"),
        }
    }
    assert!(matches!(
        lock.lock_exclusive_step(state, false, &mut backoff),
        LockProgress::Done(false)
    ));
    // The pending mark is gone: shared lockers get in again.
    assert!(lock.try_lock_shared());
    lock.unlock_shared();
    lock.unlock_shared();
    assert!(!lock.is_locked());
}

#[test]
fn shared_step_aside_gives_up() {
    let lock = RawRwSpin::new();
    let mut backoff = BackOff::new();
    let state = SharedLockWait::Aside(EXCLUSIVE_PENDING);
    assert!(state.needs_cond());
    assert!(matches!(
        lock.lock_shared_step(state, false, &mut backoff),
        LockProgress::Done(false)
    ));
    assert!(!lock.is_locked());
    match lock.lock_shared_step(SharedLockWait::Aside(0), true, &mut backoff) {
        LockProgress::Continue(SharedLockWait::Registered(0)) => {}
        _ => panic!("no exclusive locker: get back in line"),
    }
    lock.unlock_shared();
}

#[test]
fn locks_count_ranges() {
    assert!(!locks_count_exceeded(0));
    assert!(!locks_count_exceeded(SHARED_LOCK_THRESHOLD));
    assert!(locks_count_exceeded(SHARED_LOCK_THRESHOLD + 1));
    assert!(!locks_count_exceeded(EXCLUSIVE_PENDING + 3));
    assert!(locks_count_exceeded(EXCLUSIVE_PENDING + SHARED_LOCK_THRESHOLD + 1));
    assert!(!locks_count_exceeded(EXCLUSIVE_LOCKED));
    assert!(locks_count_exceeded(EXCLUSIVE_LOCKED + SHARED_LOCK_THRESHOLD + 1));
}

#[test]
fn exclusive_round_decisions() {
    assert!(wants_enqueue(false, 3));
    assert!(!wants_enqueue(true, 3));
    assert!(!wants_enqueue(false, 0));
    assert!(!wants_enqueue(false, EXCLUSIVE_PENDING));
    assert_eq!(exclusive_expected(false), 0);
    assert_eq!(exclusive_expected(true), EXCLUSIVE_PENDING);
    assert_eq!(enqueue_word(3), EXCLUSIVE_PENDING + 3);
    assert_eq!(enqueue_outcome(3, Ok(3)), (true, EXCLUSIVE_PENDING + 3));
    assert_eq!(enqueue_outcome(3, Err(5)), (false, 5));
    assert!(matches!(exclusive_attempt_outcome(true, Ok(EXCLUSIVE_PENDING)), LockProgress::Done(true)));
    assert!(matches!(
        exclusive_attempt_outcome(true, Err(7)),
        LockProgress::Continue(ExclusiveLockWait::Retry { in_queue: true, count: 7 })
    ));
    assert!(exclusive_pending(EXCLUSIVE_PENDING + 1));
    assert!(!exclusive_pending(1));
    assert!(!exclusive_pending(EXCLUSIVE_LOCKED));
}
