//! Flip buffer: a ring buffer that takes pushes and pops in two ways.
//!
//! `push_sync` and `pop_sync` only claim a slot by bumping a counter: a push writes into
//! the vacant slot after the values already counted and the pushes already claimed, a pop
//! takes the slot after the pops already claimed. Neither changes the buffer's head or
//! length; `flush` folds the counters into them. Every other operation flushes first.
use vstd::prelude::*;
use crate::ring_buffer::{RingBuffer, Drain as RingDrain, grown_cap_spec, capacity_for};

verus! {

/// Ring buffer with counted pushes and pops that are folded in by a flush.
pub struct FlipBuffer<T> {
    buffer: RingBuffer<T>,
    /// Number of `pop_sync` calls since the last flush.
    popped: u64,
    /// Number of `push_sync` calls since the last flush.
    pushed: u64,
}

/// Smaller of two integers.
pub open spec fn min_int(a: int, b: int) -> int {
    if a <= b {
        a
    } else {
        b
    }
}

impl<T> View for FlipBuffer<T> {
    type V = Seq<T>;

    /// The values in the queue, front first: the counted values not yet taken by
    /// `pop_sync`, then the values written by `push_sync`.
    closed spec fn view(&self) -> Seq<T> {
        Seq::new(
            (self.buffer.len_spec() - self.taken() + self.written()) as nat,
            |i: int| self.buffer.slot_at(self.taken() + i)->0,
        )
    }
}

impl<T> FlipBuffer<T> {
    /// Slots at the front already taken by `pop_sync`.
    pub closed spec fn taken(&self) -> int {
        min_int(self.popped as int, self.buffer.len_spec() as int)
    }

    /// Slots after the counted values already written by `push_sync`.
    pub closed spec fn written(&self) -> int {
        min_int(self.pushed as int, self.buffer.cap_spec() - self.buffer.len_spec())
    }

    /// Values that `pop_sync` can still take before the next flush.
    pub closed spec fn ready_spec(&self) -> int {
        self.buffer.len_spec() - self.taken()
    }

    /// Vacant slots that `push_sync` can still fill before the next flush.
    pub closed spec fn room_spec(&self) -> int {
        self.buffer.cap_spec() - self.buffer.len_spec() - self.written()
    }

    /// Number of slots.
    pub closed spec fn cap_spec(&self) -> nat {
        self.buffer.cap_spec()
    }

    /// Both counters are zero.
    pub closed spec fn is_flushed(&self) -> bool {
        self.popped == 0 && self.pushed == 0
    }

    pub closed spec fn wf(&self) -> bool {
        let len = self.buffer.len_spec() as int;
        let cap = self.buffer.cap_spec() as int;
        &&& self.buffer.raw_wf()
        &&& forall|i: int| 0 <= i < self.taken() ==> #[trigger] self.buffer.slot_at(i) is None
        &&& forall|i: int|
            self.taken() <= i < len + self.written() ==> #[trigger] self.buffer.slot_at(i) is Some
        &&& forall|i: int| len + self.written() <= i < cap ==> #[trigger] self.buffer.slot_at(i) is None
    }

    /// How the counters split the queue: `pop_sync` can take at most the queue's values,
    /// `push_sync` can fill at most the slots the queue leaves vacant, and right after a
    /// flush `pop_sync` can take every value and `push_sync` can fill every vacant slot.
    pub proof fn lemma_counts(&self)
        requires
            self.wf(),
        ensures
            0 <= self.ready_spec() <= self@.len(),
            0 <= self.room_spec(),
            self@.len() + self.room_spec() <= self.cap_spec(),
            self.is_flushed() ==> self.ready_spec() == self@.len() && self.room_spec()
                == self.cap_spec() - self@.len(),
    {
        self.lemma_wf();
    }

    proof fn lemma_wf(&self)
        requires
            self.wf(),
        ensures
            self.buffer.len_spec() <= self.buffer.cap_spec(),
            self@.len() == self.ready_spec() + self.written(),
            0 <= self.ready_spec(),
            0 <= self.room_spec(),
            0 <= self.written(),
            self@.len() + self.room_spec() + self.taken() == self.cap_spec(),
    {
        self.buffer.lemma_raw_wf();
    }

    /// Creates an empty flip buffer without slots (with `usize::MAX` slots for a
    /// zero-sized `T`).
    pub fn new() -> (r: Self)
        ensures
            r.wf(),
            r.is_flushed(),
            r@ == Seq::<T>::empty(),
            r.cap_spec() == capacity_for::<T>(0),
            r.ready_spec() == 0,
            r.room_spec() == r.cap_spec(),
    {
        let r = FlipBuffer { buffer: RingBuffer::new(), popped: 0, pushed: 0 };
        proof {
            r.buffer.lemma_wf_view();
        }
        assert(r@ =~= Seq::<T>::empty());
        r
    }

    /// Creates an empty flip buffer with `cap` slots (with `usize::MAX` slots for a
    /// zero-sized `T`).
    pub fn with_capacity(cap: usize) -> (r: Self)
        ensures
            r.wf(),
            r.is_flushed(),
            r@ == Seq::<T>::empty(),
            r.cap_spec() == capacity_for::<T>(cap as nat),
            r.ready_spec() == 0,
            r.room_spec() == r.cap_spec(),
    {
        let r = FlipBuffer { buffer: RingBuffer::with_capacity(cap), popped: 0, pushed: 0 };
        proof {
            r.buffer.lemma_wf_view();
        }
        assert(r@ =~= Seq::<T>::empty());
        r
    }

    /// Number of slots.
    pub fn capacity(&self) -> (r: usize)
        ensures
            r == self.cap_spec(),
    {
        self.buffer.capacity()
    }

    /// Folds the counters into the buffer: the taken values leave the front and the
    /// written values join the back. The queue's values do not change.
    fn flush(&mut self)
        requires
            old(self).wf(),
        ensures
            final(self).wf(),
            final(self).is_flushed(),
            final(self).buffer.wf(),
            final(self).buffer@ == old(self)@,
            final(self)@ == old(self)@,
            final(self).cap_spec() == old(self).cap_spec(),
    {
        let ghost before = *self;
        proof {
            self.lemma_wf();
        }
        let len = self.buffer.len();
        let cap = self.buffer.capacity();
        let vacant = cap - len;
        let popped = self.popped;
        let pushed = self.pushed;
        self.popped = 0;
        self.pushed = 0;
        if popped == 0 && pushed == 0 {
            proof {
                self.buffer.lemma_view_from_slots();
                assert(self.buffer@ =~= before@);
            }
            return;
        }
        let popped: usize = if popped <= len as u64 {
            popped as usize
        } else {
            len
        };
        let pushed: usize = if pushed <= vacant as u64 {
            pushed as usize
        } else {
            vacant
        };
        assert(popped == before.taken());
        assert(pushed == before.written());
        let new_len = len - popped + pushed;
        if popped > 0 {
            self.buffer.advance(popped, new_len);
            assert forall|i: int| 0 <= i < cap implies #[trigger] self.buffer.slot_at(i)
                == before.buffer.slot_at(if i < cap - popped { i + popped } else { i + popped - cap })
            by {}
            assert forall|i: int| 0 <= i < new_len implies #[trigger] self.buffer.slot_at(i)
                is Some by {
                assert(self.buffer.slot_at(i) == before.buffer.slot_at(i + popped));
            }
            assert forall|i: int| new_len <= i < cap implies #[trigger] self.buffer.slot_at(i)
                is None by {
                if i < cap - popped {
                    assert(self.buffer.slot_at(i) == before.buffer.slot_at(i + popped));
                } else {
                    assert(self.buffer.slot_at(i) == before.buffer.slot_at(i + popped - cap));
                }
            }
            proof {
                self.buffer.lemma_view_from_slots();
                assert forall|i: int| 0 <= i < new_len implies self.buffer@[i] == before@[i] by {
                    assert(self.buffer.slot_at(i) == before.buffer.slot_at(i + popped));
                }
                assert(self.buffer@ =~= before@);
            }
        } else {
            self.buffer.set_len_to(new_len);
            proof {
                self.buffer.lemma_view_from_slots();
                assert forall|i: int| 0 <= i < new_len implies self.buffer@[i] == before@[i] by {
                    assert(self.buffer.slot_at(i) == before.buffer.slot_at(i));
                }
                assert(self.buffer@ =~= before@);
            }
        }
        assert(self@ =~= before@);
    }

    /// Removes all values.
    pub fn clear(&mut self)
        requires
            old(self).wf(),
        ensures
            final(self).wf(),
            final(self).is_flushed(),
            final(self)@ == Seq::<T>::empty(),
            final(self).cap_spec() == old(self).cap_spec(),
    {
        self.flush();
        self.buffer.clear();
        proof {
            self.buffer.lemma_wf_view();
        }
        assert(self@ =~= Seq::<T>::empty());
    }

    /// Claims the next vacant slot and writes `value` into it. When no vacant slot is left
    /// the value is handed back. The claim is counted either way.
    pub fn push_sync(&mut self, value: T) -> (r: Result<(), T>)
        requires
            old(self).wf(),
        ensures
            final(self).wf(),
            final(self).cap_spec() == old(self).cap_spec(),
            r is Ok <==> old(self).room_spec() > 0,
            r is Ok ==> final(self)@ == old(self)@.push(value),
            r is Ok ==> final(self).room_spec() == old(self).room_spec() - 1,
            r is Err ==> r == Err::<(), T>(value) && final(self)@ == old(self)@,
            final(self).ready_spec() == old(self).ready_spec(),
    {
        let ghost before = *self;
        proof {
            self.lemma_wf();
        }
        let pushed = self.pushed;
        self.pushed = pushed.saturating_add(1);
        let len = self.buffer.len();
        let cap = self.buffer.capacity();
        if pushed < (cap - len) as u64 {
            let at = len + pushed as usize;
            self.buffer.put_at(at, value);
            assert(self.written() == before.written() + 1);
            assert forall|i: int| 0 <= i < cap && i != at implies #[trigger] self.buffer.slot_at(i)
                == before.buffer.slot_at(i) by {}
            assert(self.buffer.slot_at(at as int) == Some(value));
            assert(self@ =~= before@.push(value)) by {
                assert forall|i: int| 0 <= i < self@.len() implies self@[i] == before@.push(
                    value,
                )[i] by {
                    if i < before@.len() {
                        assert(self.buffer.slot_at(self.taken() + i) == before.buffer.slot_at(
                            before.taken() + i,
                        ));
                    }
                }
            }
            Ok(())
        } else {
            assert(self.written() == before.written());
            assert(self@ =~= before@);
            Err(value)
        }
    }

    /// Pushes `value` at the back, growing the buffer when it is full.
    pub fn push(&mut self, value: T)
        requires
            old(self).wf(),
            old(self)@.len() < old(self).cap_spec() || old(self).cap_spec() + old(self).cap_spec()
                <= usize::MAX,
        ensures
            final(self).wf(),
            final(self).is_flushed(),
            final(self)@ == old(self)@.push(value),
            old(self)@.len() < old(self).cap_spec() ==> final(self).cap_spec() == old(self).cap_spec(),
            old(self)@.len() == old(self).cap_spec() ==> final(self).cap_spec() == grown_cap_spec::<T>(
                old(self).cap_spec(),
            ),
    {
        proof {
            old(self).lemma_wf();
        }
        self.flush();
        self.buffer.push(value);
        proof {
            self.buffer.lemma_wf_view();
        }
        assert(self@ =~= self.buffer@);
    }

    /// Takes the next counted value that no `pop_sync` took yet. Values written by
    /// `push_sync` since the last flush are not taken. The attempt is counted either way.
    pub fn pop_sync(&mut self) -> (r: Option<T>)
        requires
            old(self).wf(),
        ensures
            final(self).wf(),
            final(self).cap_spec() == old(self).cap_spec(),
            r is Some <==> old(self).ready_spec() > 0,
            r is Some ==> r == Some(old(self)@[0]) && final(self)@ == old(self)@.drop_first(),
            r is Some ==> final(self).ready_spec() == old(self).ready_spec() - 1,
            r is None ==> final(self)@ == old(self)@ && final(self).ready_spec() == 0,
            final(self).room_spec() == old(self).room_spec(),
    {
        let ghost before = *self;
        proof {
            self.lemma_wf();
        }
        let popped = self.popped;
        self.popped = popped.saturating_add(1);
        let len = self.buffer.len();
        if popped < len as u64 {
            let at = popped as usize;
            let value = self.buffer.take_at(at);
            assert(self.taken() == before.taken() + 1);
            assert(value == Some(before@[0]));
            assert(self@ =~= before@.drop_first()) by {
                assert forall|i: int| 0 <= i < self@.len() implies self@[i] == before@[i + 1] by {
                    assert(self.buffer.slot_at(self.taken() + i) == before.buffer.slot_at(
                        before.taken() + i + 1,
                    ));
                }
            }
            value
        } else {
            assert(self.taken() == before.taken());
            assert(self@ =~= before@);
            None
        }
    }

    /// Removes and returns the front value.
    pub fn pop(&mut self) -> (r: Option<T>)
        requires
            old(self).wf(),
        ensures
            final(self).wf(),
            final(self).is_flushed(),
            final(self).cap_spec() == old(self).cap_spec(),
            old(self)@.len() == 0 ==> r is None && final(self)@ == old(self)@,
            old(self)@.len() > 0 ==> r == Some(old(self)@[0]) && final(self)@ == old(
                self)@.drop_first(),
    {
        self.flush();
        let r = self.buffer.pop();
        proof {
            self.buffer.lemma_wf_view();
        }
        assert(self@ =~= self.buffer@);
        r
    }

    /// Moves all values into a draining handle, front first.
    pub fn drain(&mut self) -> (d: Drain<T>)
        requires
            old(self).wf(),
        ensures
            final(self).wf(),
            final(self).is_flushed(),
            final(self)@ == Seq::<T>::empty(),
            final(self).cap_spec() == old(self).cap_spec(),
            d.wf(),
            d@ == old(self)@,
    {
        self.flush();
        let inner = self.buffer.drain();
        proof {
            self.buffer.lemma_wf_view();
        }
        assert(self@ =~= Seq::<T>::empty());
        Drain { inner }
    }

    /// Swaps the buffer with `ring`: `ring` gets this queue's values, front first, and
    /// this queue gets `ring`'s values.
    pub fn swap_buffer(&mut self, ring: &mut RingBuffer<T>)
        requires
            old(self).wf(),
            old(ring).wf(),
        ensures
            final(self).wf(),
            final(self).is_flushed(),
            final(ring).wf(),
            final(ring)@ == old(self)@,
            final(self)@ == old(ring)@,
            final(ring).cap_spec() == old(self).cap_spec(),
            final(self).cap_spec() == old(ring).cap_spec(),
    {
        self.flush();
        std::mem::swap(ring, &mut self.buffer);
        proof {
            self.buffer.lemma_wf_view();
        }
        assert(self@ =~= self.buffer@);
    }
}

/// Draining handle returned by [`FlipBuffer::drain`].
pub struct Drain<T> {
    inner: RingDrain<T>,
}

impl<T> View for Drain<T> {
    type V = Seq<T>;

    closed spec fn view(&self) -> Seq<T> {
        self.inner@
    }
}

impl<T> Drain<T> {
    pub closed spec fn wf(&self) -> bool {
        self.inner.wf()
    }

    /// Yields the next value.
    pub fn next(&mut self) -> (r: Option<T>)
        requires
            old(self).wf(),
        ensures
            final(self).wf(),
            old(self)@.len() == 0 ==> r is None && final(self)@ == old(self)@,
            old(self)@.len() > 0 ==> r == Some(old(self)@[0]) && final(self)@ == old(
                self)@.drop_first(),
    {
        self.inner.next()
    }

    /// Drops the next `n` values and yields the one after them.
    pub fn nth(&mut self, n: usize) -> (r: Option<T>)
        requires
            old(self).wf(),
        ensures
            final(self).wf(),
            n < old(self)@.len() ==> r == Some(old(self)@[n as int]) && final(self)@ == old(
                self)@.skip(n + 1),
            n >= old(self)@.len() ==> r is None && final(self)@ == Seq::<T>::empty(),
    {
        self.inner.nth(n)
    }

    /// Number of values not yet yielded.
    pub fn len(&self) -> (r: usize)
        requires
            self.wf(),
        ensures
            r == self@.len(),
    {
        self.inner.len()
    }

    /// Number of values not yet yielded; drops them.
    pub fn count(self) -> (r: usize)
        requires
            self.wf(),
        ensures
            r == self@.len(),
    {
        self.inner.count()
    }

    /// Exact bounds on the number of values not yet yielded.
    pub fn size_hint(&self) -> (r: (usize, Option<usize>))
        requires
            self.wf(),
        ensures
            r.0 == self@.len(),
            r.1 == Some(self@.len() as usize),
    {
        self.inner.size_hint()
    }
}

} // verus!
