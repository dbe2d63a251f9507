//! Typed arena: stores values of one type in slots addressed by index.
//!
//! Vacant slots form a free list threaded through their `next` fields; `next` of the
//! arena is the first vacant slot, or the number of slots when none is vacant. An insert
//! fills the first vacant slot (or appends one); a remove makes its slot the first vacant
//! one.
use vstd::prelude::*;

verus! {

/// One slot: a value when occupied, the next vacant slot when vacant.
struct Slot<T> {
    value: Option<T>,
    next: usize,
}

/// Typed arena that stores values of a single type `T`.
pub struct Arena<T> {
    slots: Vec<Slot<T>>,
    next: usize,
    /// The vacant slots in free-list order.
    free: Ghost<Seq<usize>>,
}

impl<T> View for Arena<T> {
    type V = Seq<Option<T>>;

    /// Content of each slot: the value of an occupied slot, `None` for a vacant one.
    closed spec fn view(&self) -> Seq<Option<T>> {
        Seq::new(self.slots@.len(), |i: int| self.slots@[i].value)
    }
}

impl<T> Arena<T> {
    /// The slot that the next insert fills; the number of slots when none is vacant.
    pub closed spec fn next_free(&self) -> nat {
        self.next as nat
    }

    /// The vacant slots in the order in which inserts fill them.
    pub closed spec fn free_list(&self) -> Seq<usize> {
        self.free@
    }

    /// The slot that the free list names for the next insert: its first slot, or the
    /// number of slots when it is empty.
    pub open spec fn next_from_free(&self) -> nat {
        if self.free_list().len() == 0 {
            self@.len()
        } else {
            self.free_list()[0] as nat
        }
    }

    pub closed spec fn wf(&self) -> bool {
        let len = self.slots@.len();
        let free = self.free@;
        &&& len + 1 < usize::MAX
        &&& (if free.len() == 0 {
            self.next == len
        } else {
            self.next == free[0]
        })
        &&& forall|k: int|
            0 <= k < free.len() ==> {
                &&& #[trigger] free[k] < len
                &&& self.slots@[free[k] as int].value is None
                &&& self.slots@[free[k] as int].next == (if k + 1 < free.len() {
                    free[k + 1]
                } else {
                    len as usize
                })
            }
        &&& forall|i: int|
            0 <= i < len && (#[trigger] self.slots@[i]).value is None ==> free.contains(i as usize)
        &&& forall|a: int, b: int| 0 <= a < b < free.len() ==> free[a] != free[b]
    }

    /// An empty arena.
    pub fn new() -> (r: Self)
        ensures
            r.wf(),
            r@ == Seq::<Option<T>>::empty(),
            r.next_free() == 0,
            r.free_list() == Seq::<usize>::empty(),
    {
        let r = Arena { slots: Vec::new(), next: 0, free: Ghost(Seq::empty()) };
        assert(r@ =~= Seq::<Option<T>>::empty());
        r
    }

    /// Stores `value` in the first vacant slot, or in a new slot when none is vacant, and
    /// returns the slot's index.
    pub fn insert(&mut self, value: T) -> (r: usize)
        requires
            old(self).wf(),
            old(self)@.len() + 2 < usize::MAX,
        ensures
            final(self).wf(),
            r == old(self).next_free(),
            r < old(self)@.len() ==> old(self)@[r as int] is None && final(self)@ == old(self)@.update(
                r as int,
                Some(value),
            ),
            r == old(self)@.len() ==> final(self)@ == old(self)@.push(Some(value)),
            r < old(self)@.len() ==> final(self).free_list() == old(self).free_list().drop_first(),
            r == old(self)@.len() ==> final(self).free_list() == old(self).free_list(),
            final(self).next_free() == final(self).next_from_free(),
    {
        let index = self.next;
        if index < self.slots.len() {
            let following = self.slots[index].next;
            self.slots[index] = Slot { value: Some(value), next: usize::MAX };
            self.next = following;
            proof {
                let free = old(self).free@;
                assert(free.len() > 0);
                assert(free[0] == index);
                self.free@ = free.drop_first();
                assert forall|k: int| 0 <= k < self.free@.len() implies #[trigger] self.free@[k]
                    != index by {
                    assert(free[0] != free[k + 1]);
                }
                assert forall|i: int|
                    0 <= i < self.slots@.len() && (#[trigger] self.slots@[i]).value is None
                    implies self.free@.contains(i as usize) by {
                    assert(i != index);
                    assert(old(self).slots@[i].value is None);
                    let k = choose|k: int| 0 <= k < free.len() && free[k] == i as usize;
                    assert(k != 0);
                    assert(self.free@[k - 1] == i as usize);
                }
            }
            assert(self@ =~= old(self)@.update(index as int, Some(value)));
        } else {
            self.slots.push(Slot { value: Some(value), next: 0 });
            self.next = self.slots.len();
            proof {
                assert(old(self).free@.len() == 0);
                assert forall|i: int|
                    0 <= i < self.slots@.len() && (#[trigger] self.slots@[i]).value is None
                    implies self.free@.contains(i as usize) by {
                    assert(old(self).slots@[i].value is None);
                }
            }
            assert(self@ =~= old(self)@.push(Some(value)));
        }
        index
    }

    /// Takes the value out of the occupied slot `idx`, which becomes the first vacant slot.
    pub fn remove(&mut self, idx: usize) -> (r: T)
        requires
            old(self).wf(),
            idx < old(self)@.len(),
            old(self)@[idx as int] is Some,
        ensures
            final(self).wf(),
            Some(r) == old(self)@[idx as int],
            final(self)@ == old(self)@.update(idx as int, None),
            final(self).next_free() == idx,
            final(self).free_list() == seq![idx].add(old(self).free_list()),
            final(self).next_free() == final(self).next_from_free(),
    {
        let following = self.next;
        let value = self.slots[idx].value.take();
        self.slots[idx].next = following;
        self.next = idx;
        proof {
            let free = old(self).free@;
            self.free@ = seq![idx].add(free);
            assert(!free.contains(idx)) by {
                if free.contains(idx) {
                    let k = choose|k: int| 0 <= k < free.len() && free[k] == idx;
                    assert(old(self).slots@[idx as int].value is None);
                }
            }
            assert forall|k: int| 0 <= k < free.len() implies #[trigger] free[k] != idx by {
                assert(free.contains(free[k]));
            }
            assert forall|k: int| 1 <= k < self.free@.len() implies #[trigger] self.free@[k]
                == free[k - 1] by {}
            assert forall|i: int|
                0 <= i < self.slots@.len() && (#[trigger] self.slots@[i]).value is None
                implies self.free@.contains(i as usize) by {
                if i != idx {
                    assert(old(self).slots@[i].value is None);
                    let k = choose|k: int| 0 <= k < free.len() && free[k] == i as usize;
                    assert(self.free@[k + 1] == i as usize);
                } else {
                    assert(self.free@[0] == idx);
                }
            }
        }
        assert(self@ =~= old(self)@.update(idx as int, None));
        value.unwrap()
    }

    /// Mutable reference to the value in the occupied slot `idx`.
    pub fn get_mut(&mut self, idx: usize) -> (r: &mut T)
        requires
            old(self).wf(),
            idx < old(self)@.len(),
            old(self)@[idx as int] is Some,
        ensures
            Some(*r) == old(self)@[idx as int],
            final(self).wf(),
            final(self).next_free() == old(self).next_free(),
            final(self).free_list() == old(self).free_list(),
            final(self)@ == old(self)@.update(idx as int, Some(*final(r))),
    {
        let slot = &mut self.slots[idx];
        slot.value.as_mut().unwrap()
    }

    /// Shared reference to the value in the occupied slot `idx`.
    pub fn get(&self, idx: usize) -> (r: &T)
        requires
            self.wf(),
            idx < self@.len(),
            self@[idx as int] is Some,
        ensures
            Some(*r) == self@[idx as int],
    {
        self.slots[idx].value.as_ref().unwrap()
    }
}

} // verus!
