use amity::arena::Arena;
use amity::backoff::{BackOff, WaitKind, SPIN_THRESHOLD, YIELD_THRESHOLD};
use amity::broad::{bump_version, observe, read_versioned};
use amity::triple::{Idx, TripleBuffer};
use amity::condvar::{
    merge_ordering, CondVar, CondVarStep, CondVarUpdateOrWait, CondVarWake,
};
use amity::mutex::{lock_transition, RawMutex, LOCKED};
use amity::park::{Park, ParkYield, Unpark};
use amity::rwlock::{
    exclusive_lock_transition, shared_lock_transition, shared_unlock_transition, RawRwLock,
    EXCLUSIVE_LOCK, MAX_SHARED,
};
use amity::sync::{read_atomic, write_atomic};
use std::sync::atomic::{AtomicU64, Ordering};

#[test]
fn backoff_spins_then_yields_then_blocks() {
    let mut backoff = BackOff::new();
    assert!(!backoff.should_block());
    for i in 0..YIELD_THRESHOLD {
        let kind = backoff.wait_step();
        if i < SPIN_THRESHOLD {
            assert_eq!(kind, WaitKind::Spin);
        } else {
            assert_eq!(kind, WaitKind::Yield);
        }
    }
    assert!(backoff.should_block());
    backoff.wait();
    assert!(backoff.should_block());
    backoff.reset();
    assert!(!backoff.should_block());
    for _ in 0..YIELD_THRESHOLD - 1 {
        backoff.wait();
    }
    assert!(!backoff.should_block());
    backoff.wait();
    assert!(backoff.should_block());
    assert!(!BackOff::default().should_block());
}

#[test]
fn arena_reuses_removed_slot() {
    let mut arena = Arena::new();
    assert_eq!(arena.insert("a"), 0);
    assert_eq!(arena.insert("b"), 1);
    assert_eq!(arena.insert("c"), 2);
    assert_eq!(arena.remove(1), "b");
    assert_eq!(arena.remove(0), "a");
    assert_eq!(arena.insert("d"), 0);
    assert_eq!(arena.insert("e"), 1);
    assert_eq!(arena.insert("f"), 3);
    assert_eq!(*arena.get(0), "d");
    assert_eq!(*arena.get(1), "e");
    assert_eq!(*arena.get(2), "c");
    assert_eq!(*arena.get(3), "f");
    *arena.get_mut(2) = "g";
    assert_eq!(*arena.get(2), "g");
    assert_eq!(arena.remove(2), "g");
    assert_eq!(arena.insert("h"), 2);
}

#[test]
fn broadcast_versions() {
    assert_eq!(observe(3, 2), (true, 3));
    assert_eq!(observe(2, 2), (false, 2));
    assert_eq!(observe(1, 2), (false, 2));
    assert_eq!(bump_version(0), 1);
    assert_eq!(bump_version(4), 5);
}

#[test]
fn condvar_state_operations() {
    let condvar = CondVar::<()>::new(5);
    assert_eq!(condvar.load(Ordering::Relaxed), 5);
    assert!(condvar.optimistic_update(Ordering::Acquire, 5, 6));
    assert!(!condvar.optimistic_update(Ordering::Acquire, 5, 7));
    assert_eq!(condvar.set(CondVarWake::All, Ordering::Release, 9), 6);
    assert_eq!(condvar.load(Ordering::Relaxed), 9);
    assert_eq!(CondVar::<()>::zero().load(Ordering::Relaxed), 0);
    assert_eq!(CondVar::<()>::new(255).load(Ordering::Relaxed), 255);
}

#[test]
fn condvar_update_step() {
    let condvar = CondVar::<()>::new(1);
    let mut backoff = BackOff::new();
    assert!(matches!(
        condvar.update_wait_break_step(
            Ordering::Relaxed,
            Ordering::Relaxed,
            1,
            CondVarUpdateOrWait::Break,
            &mut backoff
        ),
        CondVarStep::Done(Err(1))
    ));
    assert!(matches!(
        condvar.update_wait_break_step(
            Ordering::Relaxed,
            Ordering::Relaxed,
            1,
            CondVarUpdateOrWait::Wait,
            &mut backoff
        ),
        CondVarStep::Continue(1)
    ));
    assert!(matches!(
        condvar.update_wait_break_step(
            Ordering::Relaxed,
            Ordering::Relaxed,
            0,
            CondVarUpdateOrWait::Update(2),
            &mut backoff
        ),
        CondVarStep::Continue(1)
    ));
    let mut cur = 1;
    loop {
        match condvar.update_wait_break_step(
            Ordering::Relaxed,
            Ordering::Relaxed,
            cur,
            CondVarUpdateOrWait::Update(2),
            &mut backoff,
        ) {
            CondVarStep::Done(r) => {
                assert_eq!(r, Ok(1));
                break;
            }
            CondVarStep::Continue(c) => cur = c,
        }
    }
    assert_eq!(condvar.load(Ordering::Relaxed), 2);
}

#[test]
fn merge_ordering_table() {
    assert_eq!(merge_ordering(Ordering::Relaxed, Ordering::Acquire), Ordering::Acquire);
    assert_eq!(merge_ordering(Ordering::Release, Ordering::Acquire), Ordering::AcqRel);
    assert_eq!(merge_ordering(Ordering::SeqCst, Ordering::Relaxed), Ordering::SeqCst);
    assert_eq!(merge_ordering(Ordering::Relaxed, Ordering::Relaxed), Ordering::Relaxed);
    assert_eq!(merge_ordering(Ordering::Release, Ordering::Relaxed), Ordering::Release);
}

#[test]
fn mutex_state_rules() {
    assert_eq!(lock_transition(0), Some(LOCKED));
    assert_eq!(lock_transition(1), None);
    let mutex = RawMutex::<()>::new();
    assert!(!mutex.is_locked());
    assert!(mutex.try_lock());
    assert!(mutex.is_locked());
    assert!(!mutex.try_lock());
    mutex.unlock();
    assert!(!mutex.is_locked());
    assert!(!RawMutex::<()>::default().is_locked());
    assert_eq!(mutex.condvar().load(Ordering::Relaxed), 0);
}

#[test]
fn rwlock_state_rules() {
    assert_eq!(shared_lock_transition(0), Some(1));
    assert_eq!(shared_lock_transition(3), Some(4));
    assert_eq!(shared_lock_transition(MAX_SHARED), None);
    assert_eq!(shared_lock_transition(EXCLUSIVE_LOCK), None);
    assert_eq!(exclusive_lock_transition(0), Some(EXCLUSIVE_LOCK));
    assert_eq!(exclusive_lock_transition(2), None);
    assert_eq!(shared_unlock_transition(4), 3);
    let lock = RawRwLock::<()>::new();
    assert!(!lock.is_locked());
    assert!(lock.try_lock_shared());
    assert!(lock.is_locked());
    assert!(!lock.try_lock_exclusive());
    assert!(!lock.try_lock_shared());
    assert_eq!(lock.condvar().load(Ordering::Relaxed), 1);
    let lock = RawRwLock::<()>::new();
    assert!(lock.try_lock_exclusive());
    lock.unlock_exclusive();
    assert!(!lock.is_locked());
}

#[test]
fn park_yield_tokens() {
    let park = ParkYield;
    let token = park.unpark_token();
    token.unpark();
    park.park();
}

#[test]
fn sync_atomic_access() {
    let mut a = AtomicU64::new(3);
    assert_eq!(read_atomic(&mut a), 3);
    write_atomic(&mut a, 11);
    assert_eq!(read_atomic(&mut a), 11);
}

#[test]
fn arena_reuses_vacated_slot_first() {
    let mut a = Arena::new();
    assert_eq!(a.insert(10), 0);
    assert_eq!(a.insert(20), 1);
    assert_eq!(a.remove(0), 10);
    assert_eq!(a.insert(30), 0);
    assert_eq!(*a.get(0), 30);
    assert_eq!(*a.get(1), 20);
    assert_eq!(a.insert(40), 2);
}

/// Sends `value` through the producer's slot the way the channel does: the version is
/// the sender's new count.
fn versioned_send(buffer: &mut TripleBuffer<(u32, u64)>, producer: Idx, count: &mut u64, value: u32) -> Idx {
    *count = bump_version(*count);
    buffer.set(producer, (value, *count));
    buffer.publish(producer).0
}

/// Receives the way the channel does: consume if something was published, then compare
/// versions.
fn versioned_recv(buffer: &TripleBuffer<(u32, u64)>, consumer: &mut Idx, seen: &mut u64) -> Option<u32> {
    if !buffer.consumed() {
        let (next, published) = buffer.consume(*consumer);
        assert!(published);
        *consumer = next;
    }
    let (value, updated, now) = read_versioned(buffer, *consumer, *seen);
    *seen = now;
    if updated { Some(*value) } else { None }
}

#[test]
fn broadcast_value_sent_after_receive_is_new() {
    let mut buffer = TripleBuffer::new((0u32, 0u64), (0, 0), (0, 0));
    let mut producer = buffer.pending().other();
    let mut consumer = producer.other();
    let mut count = 0u64;
    let mut seen = 0u64;
    // The producer alternates between two slots for a while.
    for v in 1..=5u32 {
        producer = versioned_send(&mut buffer, producer, &mut count, v);
    }
    assert_eq!(versioned_recv(&buffer, &mut consumer, &mut seen), Some(5));
    producer = versioned_send(&mut buffer, producer, &mut count, 6);
    assert_eq!(versioned_recv(&buffer, &mut consumer, &mut seen), Some(6));
    producer = versioned_send(&mut buffer, producer, &mut count, 7);
    assert_eq!(versioned_recv(&buffer, &mut consumer, &mut seen), Some(7));
    assert_eq!(versioned_recv(&buffer, &mut consumer, &mut seen), None);
    let _ = versioned_send(&mut buffer, producer, &mut count, 8);
    assert_eq!(versioned_recv(&buffer, &mut consumer, &mut seen), Some(8));
}

#[test]
fn backoff_blocks_exactly_after_fifteen_waits() {
    for n in 0..40usize {
        let mut backoff = BackOff::new();
        for _ in 0..n {
            backoff.wait();
        }
        assert_eq!(backoff.should_block(), n >= YIELD_THRESHOLD);
        backoff.reset();
        assert!(!backoff.should_block());
    }
}
