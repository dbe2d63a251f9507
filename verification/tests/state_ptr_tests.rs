use amity::state_ptr::{addr_mask, state_bits, state_mask, AtomicPtrState, PtrState, State};
use std::sync::atomic::Ordering;

#[test]
fn state_masks_follow_alignment() {
    assert_eq!(state_mask::<u64>(), 7);
    assert_eq!(state_bits::<u64>(), 3);
    assert_eq!(addr_mask::<u64>(), !7usize);
    assert_eq!(state_mask::<u8>(), 0);
    assert_eq!(state_bits::<u8>(), 0);
    assert_eq!(state_mask::<u32>(), 3);
    assert_eq!(state_bits::<u32>(), 2);
}

#[test]
fn state_new_checks_bits() {
    assert_eq!(State::<u64>::new(3).map(|s| s.value()), Some(3));
    assert!(State::<u64>::new(8).is_none());
    assert!(State::<u64>::new(9).is_none());
    assert_eq!(State::<u64>::new_truncated(0xff).value(), 7);
    assert_eq!(State::<u64>::zero().value(), 0);
    assert!(State::<u64>::new(2).unwrap() == State::<u64>::new_truncated(10));
    let as_usize: usize = State::<u64>::new(5).unwrap().into();
    assert_eq!(as_usize, 5);
}

#[test]
fn ptr_state_packs_and_splits() {
    let addr: usize = 0x1000;
    let state = State::<u64>::new(3).unwrap();
    let ptr_state = PtrState::new(addr, state);
    assert_eq!(ptr_state.raw(), 0x1003);
    assert_eq!(ptr_state.ptr(), 0x1000);
    assert_eq!(ptr_state.state().value(), 3);

    let updated = ptr_state.with_state(State::new(5).unwrap());
    assert_eq!(updated.ptr(), 0x1000);
    assert_eq!(updated.state().value(), 5);

    let moved = updated.with_ptr(0x2000);
    assert_eq!(moved.ptr(), 0x2000);
    assert_eq!(moved.state().value(), 5);
    assert_eq!(moved.raw(), 0x2005);
}

#[test]
fn ptr_state_constructors() {
    assert_eq!(PtrState::<u64>::null_zero().raw(), 0);
    let s = PtrState::<u64>::null_state(State::new(6).unwrap());
    assert_eq!(s.raw(), 6);
    assert_eq!(s.ptr(), 0);
    assert_eq!(s.state().value(), 6);
    let z = PtrState::<u64>::new_zero(0x40);
    assert_eq!(z.raw(), 0x40);
    assert_eq!(z.state().value(), 0);
    let r = PtrState::<u64>::from_raw(0x47);
    assert_eq!(r.ptr(), 0x40);
    assert_eq!(r.state().value(), 7);
    assert!(r == PtrState::new(0x40, State::new(7).unwrap()));
}

#[test]
fn ptr_state_wrapping_pack() {
    let s = PtrState::<u64>::new(usize::MAX, State::new(1).unwrap());
    assert_eq!(s.raw(), 0);
}

#[test]
fn atomic_ptr_state_operations() {
    let state = State::<u64>::new(3).unwrap();
    let atomic = AtomicPtrState::new(0x1000, state);
    let loaded = atomic.load(Ordering::Acquire);
    assert_eq!(loaded.ptr(), 0x1000);
    assert_eq!(loaded.state().value(), 3);

    let updated = loaded.with_state(State::new(5).unwrap());
    atomic.store(updated, Ordering::Release);
    assert_eq!(atomic.load(Ordering::Relaxed).state().value(), 5);

    let old = atomic.swap(PtrState::new_zero(0x2000), Ordering::AcqRel);
    assert_eq!(old.raw(), 0x1005);
    assert_eq!(atomic.load(Ordering::Relaxed).raw(), 0x2000);

    let cur = PtrState::new_zero(0x2000);
    let new = PtrState::new(0x3000, State::new(1).unwrap());
    assert!(atomic.compare_exchange(cur, new, Ordering::AcqRel, Ordering::Relaxed) == Ok(cur));
    assert!(atomic.compare_exchange(cur, new, Ordering::AcqRel, Ordering::Relaxed) == Err(new));
    let mut r = atomic.compare_exchange_weak(new, cur, Ordering::AcqRel, Ordering::Relaxed);
    while r.is_err() {
        r = atomic.compare_exchange_weak(new, cur, Ordering::AcqRel, Ordering::Relaxed);
    }
    assert_eq!(atomic.load(Ordering::Relaxed).raw(), 0x2000);

    assert_eq!(AtomicPtrState::<u64>::null_zero().load(Ordering::Relaxed).raw(), 0);
    assert_eq!(
        AtomicPtrState::<u64>::null_state(State::new(2).unwrap()).load(Ordering::Relaxed).raw(),
        2
    );
    assert_eq!(AtomicPtrState::<u64>::new_zero(0x80).load(Ordering::Relaxed).raw(), 0x80);
    assert_eq!(AtomicPtrState::<u64>::from_raw(0x81).load(Ordering::Relaxed).state().value(), 1);
    assert_eq!(
        AtomicPtrState::from_ptr_state(PtrState::<u64>::from_raw(0x82))
            .load(Ordering::Relaxed)
            .raw(),
        0x82
    );
}
