//! A heap-allocated ring buffer: values are pushed at the back and popped at the front.
//!
//! The buffer keeps a fixed array of slots, a `head` slot and a length. When it is full,
//! `push` moves the values into a larger array (twice the capacity, and at least a small
//! minimum that depends on the size of `T`), starting again at slot zero.
//!
//! Values of a zero-sized `T` take no memory, so a buffer of them has `usize::MAX` slots
//! from the start and never grows. Only the slots from the front up to the last occupied
//! one are kept; the head still moves around the `usize::MAX` slots.
use vstd::prelude::*;
use vstd::layout::size_of;

verus! {

/// Physical slot of the logical position `index` in a ring of `cap` slots that starts at `head`.
pub open spec fn ring_slot(head: int, index: int, cap: int) -> int {
    if head + index < cap {
        head + index
    } else {
        head + index - cap
    }
}

/// Slot `by` positions after `head` in a ring of `cap` slots (for `by <= cap`): the head
/// after `by` values left the front.
pub open spec fn head_after(head: int, by: int, cap: int) -> int {
    if head + by < cap {
        head + by
    } else {
        head + by - cap
    }
}

/// Capacity of a buffer of `T` created with `cap` slots: `usize::MAX` for a zero-sized
/// `T`, whatever `cap` is.
pub open spec fn capacity_for<T>(cap: nat) -> nat {
    if size_of::<T>() == 0 {
        usize::MAX as nat
    } else {
        cap
    }
}

/// Smallest capacity that a full buffer of `T` grows to.
pub open spec fn min_non_zero_cap_spec<T>() -> nat {
    if size_of::<T>() == 1 {
        8
    } else if size_of::<T>() <= 1024 {
        4
    } else {
        1
    }
}

/// Capacity that a full buffer of capacity `cap` grows to.
pub open spec fn grown_cap_spec<T>(cap: nat) -> nat {
    if cap + cap >= min_non_zero_cap_spec::<T>() {
        cap + cap
    } else {
        min_non_zero_cap_spec::<T>()
    }
}

/// Physical slot of logical position `index` in a ring of `cap` slots starting at `head`.
pub(crate) fn ring_index(head: usize, index: usize, cap: usize) -> (r: usize)
    requires
        head < cap,
        index <= cap,
    ensures
        r == ring_slot(head as int, index as int, cap as int),
        index < cap ==> r < cap,
{
    let tail = cap - head;
    if tail > index {
        head + index
    } else {
        index - tail
    }
}

fn min_non_zero_cap<T>() -> (r: usize)
    ensures
        r == min_non_zero_cap_spec::<T>(),
{
    let size = core::mem::size_of::<T>();
    if size == 1 {
        8
    } else if size <= 1024 {
        4
    } else {
        1
    }
}

fn new_cap<T>(cap: usize) -> (r: usize)
    requires
        cap + cap <= usize::MAX,
    ensures
        r == grown_cap_spec::<T>(cap as nat),
        r > cap,
{
    let doubled = cap + cap;
    let min = min_non_zero_cap::<T>();
    if doubled >= min {
        doubled
    } else {
        min
    }
}

/// Values leave in the order they entered: a push onto a non-empty queue does not change
/// which value a pop returns, and a pop after a push leaves what a push after the pop
/// leaves; on an empty queue the pushed value is the one popped.
pub proof fn law_fifo<T>(values: Seq<T>, v: T)
    ensures
        values.len() > 0 ==> values.push(v)[0] == values[0] && values.push(v).drop_first()
            == values.drop_first().push(v),
        values.len() == 0 ==> values.push(v)[0] == v && values.push(v).drop_first() == values,
{
    if values.len() > 0 {
        assert(values.push(v).drop_first() =~= values.drop_first().push(v));
    } else {
        assert(values.push(v).drop_first() =~= values);
    }
}

/// Ring-buffer structure.
///
/// Values are pushed to the end of the buffer and popped from the beginning.
pub struct RingBuffer<T> {
    head: usize,
    len: usize,
    /// The slots; for a zero-sized `T`, the first slots from the front only.
    array: Vec<Option<T>>,
    /// Whether `T` is zero-sized.
    zero_sized: bool,
}

impl<T> View for RingBuffer<T> {
    type V = Seq<T>;

    /// The values in the buffer, front first.
    closed spec fn view(&self) -> Seq<T> {
        Seq::new(self.len as nat, |i: int| self.slot_at(i)->0)
    }
}

impl<T> RingBuffer<T> {
    /// Number of slots.
    pub closed spec fn cap_spec(&self) -> nat {
        if self.zero_sized {
            usize::MAX as nat
        } else {
            self.array@.len()
        }
    }

    /// Slot that holds the front value.
    pub closed spec fn head_spec(&self) -> nat {
        self.head as nat
    }

    /// Number of values counted as stored (the view's length when well formed).
    pub closed spec fn len_spec(&self) -> nat {
        self.len as nat
    }

    /// Content of the slot at logical position `i` (for `0 <= i <= cap`).
    pub closed spec fn slot_at(&self, i: int) -> Option<T> {
        if self.zero_sized {
            if 0 <= i < self.array@.len() {
                self.array@[i]
            } else {
                None
            }
        } else {
            self.array@[ring_slot(self.head as int, i, self.array@.len() as int)]
        }
    }

    /// Shape of the ring: the head is a slot (or zero when there are none) and the
    /// length fits into the capacity.
    pub closed spec fn raw_wf(&self) -> bool {
        &&& self.zero_sized == (size_of::<T>() == 0)
        &&& if self.zero_sized {
            self.head < usize::MAX
        } else {
            &&& (self.head < self.array@.len() || (self.head == 0 && self.array@.len() == 0))
            &&& self.len <= self.array@.len()
        }
    }

    /// Well-formedness: the first `len` logical slots hold values, the others are vacant.
    pub closed spec fn wf(&self) -> bool {
        &&& self.raw_wf()
        &&& forall|i: int| 0 <= i < self.len ==> #[trigger] self.slot_at(i) is Some
        &&& forall|i: int| self.len <= i < self.cap_spec() ==> #[trigger] self.slot_at(i) is None
    }

    /// Creates an empty buffer without slots (with `usize::MAX` slots for a zero-sized
    /// `T`).
    pub fn new() -> (r: Self)
        ensures
            r.wf(),
            r@ == Seq::<T>::empty(),
            r.cap_spec() == capacity_for::<T>(0),
            r.head_spec() == 0,
    {
        Self::with_capacity(0)
    }

    /// Creates an empty buffer with `cap` slots (with `usize::MAX` slots for a zero-sized
    /// `T`).
    pub fn with_capacity(cap: usize) -> (r: Self)
        ensures
            r.wf(),
            r@ == Seq::<T>::empty(),
            r.cap_spec() == capacity_for::<T>(cap as nat),
            r.head_spec() == 0,
    {
        if core::mem::size_of::<T>() == 0 {
            let r = RingBuffer { head: 0, len: 0, array: Vec::new(), zero_sized: true };
            assert(r@ =~= Seq::<T>::empty());
            return r;
        }
        let mut array: Vec<Option<T>> = Vec::new();
        let mut i: usize = 0;
        while i < cap
            invariant
                i <= cap,
                array@.len() == i,
                forall|j: int| 0 <= j < i ==> #[trigger] array@[j] is None,
            decreases cap - i,
        {
            array.push(None);
            i = i + 1;
        }
        let r = RingBuffer { head: 0, len: 0, array, zero_sized: false };
        assert(r@ =~= Seq::<T>::empty());
        r
    }

    /// Returns `true` if the buffer holds no value.
    pub fn is_empty(&self) -> (r: bool)
        requires
            self.wf(),
        ensures
            r == (self@.len() == 0),
    {
        self.len == 0
    }

    /// Number of slots.
    pub fn capacity(&self) -> (r: usize)
        ensures
            r == self.cap_spec(),
    {
        if self.zero_sized {
            usize::MAX
        } else {
            self.array.len()
        }
    }

    /// Number of values in the buffer.
    pub fn len(&self) -> (r: usize)
        ensures
            r == self.len_spec(),
            self.wf() ==> r == self@.len(),
    {
        self.len
    }

    /// Slot that holds the front value.
    pub fn head(&self) -> (r: usize)
        ensures
            r == self.head_spec(),
    {
        self.head
    }

    /// Appends `value` at the back. A full buffer first moves its values, front first, into
    /// a new array of the grown capacity, starting at slot zero.
    pub fn push(&mut self, value: T)
        requires
            old(self).wf(),
            old(self)@.len() < old(self).cap_spec() || old(self).cap_spec() + old(self).cap_spec()
                <= usize::MAX,
        ensures
            final(self).wf(),
            final(self)@ == old(self)@.push(value),
            old(self)@.len() < old(self).cap_spec() ==> final(self).cap_spec() == old(self).cap_spec() && final(self).head_spec() == old(self).head_spec(),
            old(self)@.len() == old(self).cap_spec() ==> final(self).cap_spec() == grown_cap_spec::<T>(old(self).cap_spec()) && final(self).head_spec() == 0,
    {
        if self.len < self.capacity() {
            // Not full: write into the first vacant slot.
            let len = self.len;
            self.put_at(len, value);
            let ghost mid = *self;
            self.len = len + 1;
            assert forall|i: int| 0 <= i < self.cap_spec() implies #[trigger] self.slot_at(i) == mid.slot_at(i) by {}
            assert forall|i: int| 0 <= i < self.cap_spec() && i != len implies #[trigger] self.slot_at(i) == old(self).slot_at(i) by {
                assert(mid.slot_at(i) == old(self).slot_at(i));
            }
            assert(self.slot_at(len as int) == Some(value)) by {
                assert(self.slot_at(len as int) == mid.slot_at(len as int));
            }
            assert(self@ =~= old(self)@.push(value));
        } else {
            self.grow_and_push(value);
        }
    }

    fn grow_and_push(&mut self, value: T)
        requires
            old(self).wf(),
            !old(self).zero_sized,
            old(self)@.len() == old(self).cap_spec(),
            old(self).cap_spec() + old(self).cap_spec() <= usize::MAX,
        ensures
            final(self).wf(),
            final(self)@ == old(self)@.push(value),
            final(self).cap_spec() == grown_cap_spec::<T>(old(self).cap_spec()),
            final(self).head_spec() == 0,
    {
        let ghost old_view = self@;
        let cap = self.array.len();
        let head = self.head;
        let grown = new_cap::<T>(cap);
        let mut old_array = self.replace_array(Vec::new());
        let ghost orig = old_array@;
        let mut array: Vec<Option<T>> = Vec::with_capacity(grown);
        let mut k: usize = 0;
        while k < cap
            invariant
                cap == old_array@.len(),
                cap == orig.len(),
                cap == old_view.len(),
                head < cap || (head == 0 && cap == 0),
                k <= cap,
                array@.len() == k,
                forall|j: int| 0 <= j < k ==> #[trigger] array@[j] == Some(old_view[j]),
                forall|j: int|
                    k <= j < cap ==> old_array@[#[trigger] ring_slot(head as int, j, cap as int)]
                        == orig[ring_slot(head as int, j, cap as int)],
                forall|j: int|
                    0 <= j < cap ==> orig[#[trigger] ring_slot(head as int, j, cap as int)] == Some(old_view[j]),
            decreases cap - k,
        {
            let idx = ring_index(head, k, cap);
            let v = old_array[idx].take();
            assert(v == Some(old_view[k as int]));
            array.push(v);
            k = k + 1;
        }
        array.push(Some(value));
        while array.len() < grown
            invariant
                cap < array@.len() <= grown,
                forall|j: int| 0 <= j < cap ==> #[trigger] array@[j] == Some(old_view[j]),
                array@[cap as int] == Some(value),
                forall|j: int| cap < j < array@.len() ==> #[trigger] array@[j] is None,
            decreases grown - array@.len(),
        {
            array.push(None);
        }
        self.array = array;
        self.head = 0;
        self.len = cap + 1;
        assert(self@ =~= old_view.push(value));
    }

    /// Puts `array` in place of the slots and returns the old slots.
    fn replace_array(&mut self, array: Vec<Option<T>>) -> (r: Vec<Option<T>>)
        ensures
            r == old(self).array,
            final(self).array == array,
            final(self).head == old(self).head,
            final(self).len == old(self).len,
            final(self).zero_sized == old(self).zero_sized,
    {
        let mut array = array;
        std::mem::swap(&mut array, &mut self.array);
        array
    }

    /// Removes and returns the front value, or `None` when the buffer is empty.
    pub fn pop(&mut self) -> (r: Option<T>)
        requires
            old(self).wf(),
        ensures
            final(self).wf(),
            final(self).cap_spec() == old(self).cap_spec(),
            old(self)@.len() == 0 ==> r is None && final(self)@ == old(self)@ && final(self).head_spec() == old(self).head_spec(),
            old(self)@.len() > 0 ==> r == Some(old(self)@[0]) && final(self)@ == old(self)@.drop_first()
                && final(self).head_spec() == head_after(old(self).head_spec() as int, 1, old(self).cap_spec() as int),
    {
        if self.len == 0 {
            return None;
        }
        if self.zero_sized {
            assert(old(self).slot_at(0) is Some);
            let kept = self.array.len();
            let value = self.array.remove(0);
            assert(self.array@.len() == kept - 1);
            self.head = if self.head + 1 == usize::MAX {
                0
            } else {
                self.head + 1
            };
            self.len = self.len - 1;
            assert forall|i: int| 0 <= i < usize::MAX - 1 implies #[trigger] self.slot_at(i)
                == old(self).slot_at(i + 1) by {}
            assert(self.slot_at(usize::MAX - 1) is None);
            assert forall|i: int| self.len <= i < self.cap_spec() implies #[trigger] self.slot_at(i)
                is None by {
                if i < usize::MAX - 1 {
                    assert(self.slot_at(i) == old(self).slot_at(i + 1));
                }
            }
            assert forall|i: int| 0 <= i < self.len implies #[trigger] self.slot_at(i) is Some by {
                assert(self.slot_at(i) == old(self).slot_at(i + 1));
            }
            assert(self@ =~= old(self)@.drop_first()) by {
                assert forall|i: int| 0 <= i < self.len implies self.slot_at(i) == old(self).slot_at(i + 1) by {}
            }
            return value;
        }
        let h = self.head;
        let cap = self.array.len();
        let value = self.array[h].take();
        self.head = if h + 1 == cap {
            0
        } else {
            h + 1
        };
        self.len = self.len - 1;
        assert(self.slot_at(self.array@.len() - 1) is None) by {
            assert(old(self).slot_at(0) is Some);
        }
        assert forall|i: int| self.len <= i < self.array@.len() implies #[trigger] self.slot_at(i) is None by {
            if i < self.array@.len() - 1 {
                assert(self.slot_at(i) == old(self).slot_at(i + 1));
            }
        }
        assert forall|i: int| 0 <= i < self.len implies #[trigger] self.slot_at(i) is Some by {
            assert(self.slot_at(i) == old(self).slot_at(i + 1));
        }
        assert(self@ =~= old(self)@.drop_first()) by {
            assert forall|i: int| 0 <= i < self.len implies self.slot_at(i) == old(self).slot_at(i + 1) by {}
        }
        value
    }

    /// Removes all values, front first, and moves the head to slot zero.
    pub fn clear(&mut self)
        requires
            old(self).wf(),
        ensures
            final(self).wf(),
            final(self)@ == Seq::<T>::empty(),
            final(self).cap_spec() == old(self).cap_spec(),
            final(self).head_spec() == 0,
    {
        if self.zero_sized {
            self.array = Vec::new();
            self.head = 0;
            self.len = 0;
            assert(self@ =~= Seq::<T>::empty());
            return;
        }
        let cap = self.array.len();
        let head = self.head;
        let len = self.len;
        let mut k: usize = 0;
        while k < len
            invariant
                self.raw_wf(),
                !self.zero_sized,
                self.head == head,
                self.len == len,
                self.array@.len() == cap,
                k <= len,
                len <= cap,
                forall|i: int| 0 <= i < k ==> #[trigger] self.slot_at(i) is None,
                forall|i: int| len <= i < cap ==> #[trigger] self.slot_at(i) is None,
            decreases len - k,
        {
            let ghost prev = *self;
            let idx = ring_index(head, k, cap);
            self.array[idx] = None;
            assert forall|i: int| 0 <= i <= k implies #[trigger] self.slot_at(i) is None by {
                assert(i < k ==> ring_slot(head as int, i, cap as int) != idx);
                assert(i < k ==> self.slot_at(i) == prev.slot_at(i));
            }
            assert forall|i: int| len <= i < cap implies #[trigger] self.slot_at(i) is None by {
                assert(ring_slot(head as int, i, cap as int) != idx);
                assert(self.slot_at(i) == prev.slot_at(i));
            }
            k = k + 1;
        }
        assert forall|p: int| 0 <= p < cap implies #[trigger] self.array@[p] is None by {
            let i = if p >= head {
                p - head
            } else {
                p + cap - head
            };
            assert(ring_slot(head as int, i, cap as int) == p);
            assert(self.slot_at(i) is None);
        }
        self.head = 0;
        self.len = 0;
        assert(self@ =~= Seq::<T>::empty());
        assert forall|i: int| 0 <= i < cap implies #[trigger] self.slot_at(i) is None by {
            assert(self.array@[i] is None);
        }
    }

    /// Moves all values into a draining handle; the buffer keeps its capacity and is left
    /// empty with the head at slot zero.
    pub fn drain(&mut self) -> (d: Drain<T>)
        requires
            old(self).wf(),
        ensures
            final(self).wf(),
            final(self)@ == Seq::<T>::empty(),
            final(self).cap_spec() == old(self).cap_spec(),
            final(self).head_spec() == 0,
            d.wf(),
            d@ == old(self)@,
    {
        let cap = self.capacity();
        let mut taken = RingBuffer::with_capacity(cap);
        std::mem::swap(self, &mut taken);
        Drain { ring: taken }
    }

    /// Shared iterator over the values, front first.
    pub fn iter(&self) -> (it: Iter<'_, T>)
        requires
            self.wf(),
        ensures
            it.wf(),
            it@ == self@,
    {
        let it = Iter { ring: self, front: 0, back: self.len };
        assert(it@ =~= self@);
        it
    }

    /// Reference to the value at logical position `i`.
    fn value_at(&self, i: usize) -> (r: &T)
        requires
            self.wf(),
            i < self.len_spec(),
        ensures
            *r == self@[i as int],
    {
        assert(self.slot_at(i as int) is Some);
        if self.zero_sized {
            return self.array[i].as_ref().unwrap();
        }
        let idx = ring_index(self.head, i, self.array.len());
        self.array[idx].as_ref().unwrap()
    }

    /// Shared reference to the value at position `i` from the front.
    pub fn get(&self, i: usize) -> (r: &T)
        requires
            self.wf(),
            i < self@.len(),
        ensures
            *r == self@[i as int],
    {
        self.value_at(i)
    }

    /// Mutable reference to the value at position `i` from the front; what is written
    /// through it replaces that value and nothing else.
    pub fn get_mut(&mut self, i: usize) -> (r: &mut T)
        requires
            old(self).wf(),
            i < old(self)@.len(),
        ensures
            *r == old(self)@[i as int],
            final(self).wf(),
            final(self)@ == old(self)@.update(i as int, *final(r)),
            final(self).cap_spec() == old(self).cap_spec(),
            final(self).head_spec() == old(self).head_spec(),
    {
        let idx = if self.zero_sized {
            i
        } else {
            ring_index(self.head, i, self.array.len())
        };
        assert(self.slot_at(i as int) is Some);
        assert(self.array@[idx as int] == self.slot_at(i as int));
        assert forall|j: int| 0 <= j < self.cap_spec() && j != i implies
            (if self.zero_sized { j != idx || j >= self.array@.len() } else {
                ring_slot(self.head as int, j, self.array@.len() as int) != idx
            }) by {}
        let ghost before = *self;
        assert forall|b: Self| Self::same_but_slot(before, b, i as int) implies #[trigger] b.wf() by {
            Self::lemma_wf_after_write(before, b, i as int);
        }
        self.array[idx].as_mut().unwrap()
    }

    /// `b` has the shape of `a` and the same slots, but for slot `i`, which holds a value.
    spec fn same_but_slot(a: Self, b: Self, i: int) -> bool {
        &&& b.head == a.head
        &&& b.len == a.len
        &&& b.zero_sized == a.zero_sized
        &&& b.array@.len() == a.array@.len()
        &&& b.slot_at(i) is Some
        &&& forall|j: int| 0 <= j < a.cap_spec() && j != i ==> #[trigger] b.slot_at(j) == a.slot_at(j)
    }

    /// A buffer whose slots are those of a well-formed one, but for an occupied slot that
    /// still holds a value, is well formed.
    proof fn lemma_wf_after_write(a: Self, b: Self, i: int)
        requires
            a.wf(),
            0 <= i < a.len,
            Self::same_but_slot(a, b, i),
        ensures
            b.wf(),
    {
        assert forall|j: int| 0 <= j < b.len implies #[trigger] b.slot_at(j) is Some by {
            if j != i {
                assert(a.slot_at(j) is Some);
            }
        }
        assert forall|j: int| b.len <= j < b.cap_spec() implies #[trigger] b.slot_at(j) is None by {
            assert(a.slot_at(j) is None);
        }
    }

    /// Takes the content of the slot at logical position `i`, leaving it vacant.
    pub(crate) fn take_at(&mut self, i: usize) -> (r: Option<T>)
        requires
            old(self).raw_wf(),
            i < old(self).cap_spec(),
        ensures
            final(self).raw_wf(),
            final(self).cap_spec() == old(self).cap_spec(),
            final(self).head_spec() == old(self).head_spec(),
            final(self).len_spec() == old(self).len_spec(),
            r == old(self).slot_at(i as int),
            final(self).slot_at(i as int) is None,
            forall|j: int|
                0 <= j < old(self).cap_spec() && j != i ==> #[trigger] final(self).slot_at(j)
                    == old(self).slot_at(j),
    {
        if self.zero_sized {
            if i < self.array.len() {
                return self.array[i].take();
            } else {
                return None;
            }
        }
        let idx = ring_index(self.head, i, self.array.len());
        self.array[idx].take()
    }

    /// Stores `value` in the slot at logical position `i`.
    pub(crate) fn put_at(&mut self, i: usize, value: T)
        requires
            old(self).raw_wf(),
            i < old(self).cap_spec(),
        ensures
            final(self).raw_wf(),
            final(self).cap_spec() == old(self).cap_spec(),
            final(self).head_spec() == old(self).head_spec(),
            final(self).len_spec() == old(self).len_spec(),
            final(self).slot_at(i as int) == Some(value),
            forall|j: int|
                0 <= j < old(self).cap_spec() && j != i ==> #[trigger] final(self).slot_at(j)
                    == old(self).slot_at(j),
    {
        if self.zero_sized {
            while self.array.len() < i
                invariant
                    self.zero_sized,
                    self.raw_wf(),
                    self.head == old(self).head,
                    self.len == old(self).len,
                    old(self).array@.len() <= self.array@.len(),
                    self.array@.len() <= i || self.array@.len() == old(self).array@.len(),
                    forall|j: int| 0 <= j < old(self).array@.len() ==> #[trigger] self.array@[j] == old(self).array@[j],
                    forall|j: int| old(self).array@.len() <= j < self.array@.len() ==> #[trigger] self.array@[j] is None,
                decreases i - self.array@.len(),
            {
                self.array.push(None);
            }
            if i < self.array.len() {
                self.array[i] = Some(value);
            } else {
                self.array.push(Some(value));
            }
            assert forall|j: int| 0 <= j < old(self).cap_spec() && j != i implies #[trigger] self.slot_at(j)
                == old(self).slot_at(j) by {}
            return;
        }
        let idx = ring_index(self.head, i, self.array.len());
        self.array[idx] = Some(value);
    }

    /// Sets the length to `len`, keeping the head.
    pub(crate) fn set_len_to(&mut self, len: usize)
        requires
            old(self).raw_wf(),
            len <= old(self).cap_spec(),
        ensures
            final(self).raw_wf(),
            final(self).cap_spec() == old(self).cap_spec(),
            final(self).head_spec() == old(self).head_spec(),
            final(self).len_spec() == len,
            forall|j: int| #[trigger] final(self).slot_at(j) == old(self).slot_at(j),
    {
        self.len = len;
    }

    pub proof fn lemma_wf_view(&self)
        requires
            self.wf(),
        ensures
            self.raw_wf(),
            self.len_spec() <= self.cap_spec(),
            self@.len() == self.len_spec(),
            forall|i: int| 0 <= i < self.len_spec() ==> #[trigger] self.slot_at(i) == Some(self@[i]),
            forall|i: int| self.len_spec() <= i < self.cap_spec() ==> #[trigger] self.slot_at(i) is None,
    {
    }

    pub proof fn lemma_raw_wf(&self)
        requires
            self.raw_wf(),
        ensures
            self.len_spec() <= self.cap_spec(),
    {
    }

    pub proof fn lemma_view_from_slots(&self)
        requires
            self.raw_wf(),
            forall|i: int| 0 <= i < self.len_spec() ==> #[trigger] self.slot_at(i) is Some,
            forall|i: int| self.len_spec() <= i < self.cap_spec() ==> #[trigger] self.slot_at(i) is None,
        ensures
            self.wf(),
            self@.len() == self.len_spec(),
            forall|i: int| 0 <= i < self.len_spec() ==> #[trigger] self.slot_at(i) == Some(self@[i]),
    {
    }

    /// Moves the front forward by `by` slots and sets the length to `len`.
    pub(crate) fn advance(&mut self, by: usize, len: usize)
        requires
            old(self).raw_wf(),
            by <= old(self).len_spec(),
            len <= old(self).cap_spec(),
            by > 0,
            forall|j: int| 0 <= j < by ==> #[trigger] old(self).slot_at(j) is None,
        ensures
            final(self).raw_wf(),
            final(self).cap_spec() == old(self).cap_spec(),
            final(self).len_spec() == len,
            final(self).head_spec() == head_after(old(self).head_spec() as int, by as int, old(self).cap_spec() as int),
            forall|j: int|
                0 <= j < old(self).cap_spec() - by ==> #[trigger] final(self).slot_at(j) == old(self).slot_at(j + by),
            forall|j: int|
                old(self).cap_spec() - by <= j < old(self).cap_spec() ==> #[trigger] final(self).slot_at(j) == old(self).slot_at(j + by - old(self).cap_spec()),
    {
        let cap = self.capacity();
        let new_head = ring_index(self.head, by, cap);
        self.head = if new_head == cap {
            0
        } else {
            new_head
        };
        self.len = len;
        if self.zero_sized {
            // Drop the vacant front slots that are kept.
            let kept = self.array.len();
            let ghost orig = self.array@;
            let ghost moved_head = self.head;
            let mut k: usize = 0;
            while k < by && self.array.len() > 0
                invariant
                    self.zero_sized,
                    self.raw_wf(),
                    self.head == moved_head,
                    self.len == len,
                    k <= by,
                    k <= orig.len(),
                    self.array@ == orig.subrange(k as int, orig.len() as int),
                decreases by - k,
            {
                let _ = self.array.remove(0);
                k = k + 1;
                assert(self.array@ =~= orig.subrange(k as int, orig.len() as int));
            }
            assert(k == by || k == orig.len());
            assert(self.array@.len() == orig.len() - k);
            assert(orig.len() == kept);
            assert(self.array@.len() <= cap - by);
            assert forall|j: int| 0 <= j < cap - by implies #[trigger] self.slot_at(j) == old(self).slot_at(j + by) by {
                if k < by {
                    assert(old(self).slot_at(j + by) is None);
                }
            }
            assert forall|j: int| cap - by <= j < cap implies #[trigger] self.slot_at(j) == old(self).slot_at(j + by - cap) by {
                assert(old(self).slot_at(j + by - cap) is None);
            }
        }
    }
}

/// Draining handle returned by [`RingBuffer::drain`]: yields the values front first and
/// drops the values it did not yield.
pub struct Drain<T> {
    ring: RingBuffer<T>,
}

impl<T> View for Drain<T> {
    type V = Seq<T>;

    /// The values not yet yielded, next first.
    closed spec fn view(&self) -> Seq<T> {
        self.ring@
    }
}

impl<T> Drain<T> {
    pub closed spec fn wf(&self) -> bool {
        self.ring.wf()
    }

    /// Slot of the next value in the drained ring.
    pub closed spec fn head_spec(&self) -> nat {
        self.ring.head_spec()
    }

    /// Number of slots of the drained ring.
    pub closed spec fn cap_spec(&self) -> nat {
        self.ring.cap_spec()
    }

    /// Yields the next value.
    pub fn next(&mut self) -> (r: Option<T>)
        requires
            old(self).wf(),
        ensures
            final(self).wf(),
            final(self).cap_spec() == old(self).cap_spec(),
            old(self)@.len() == 0 ==> r is None && final(self)@ == old(self)@ && final(self).head_spec() == old(self).head_spec(),
            old(self)@.len() > 0 ==> r == Some(old(self)@[0]) && final(self)@ == old(self)@.drop_first()
                && final(self).head_spec() == head_after(old(self).head_spec() as int, 1, old(self).cap_spec() as int),
    {
        self.ring.pop()
    }

    /// Drops the next `n` values and yields the one after them. When fewer than `n + 1`
    /// values are left, drops them all and returns `None`.
    pub fn nth(&mut self, n: usize) -> (r: Option<T>)
        requires
            old(self).wf(),
        ensures
            final(self).wf(),
            final(self).cap_spec() == old(self).cap_spec(),
            n < old(self)@.len() ==> r == Some(old(self)@[n as int]) && final(self)@ == old(self)@.skip(n + 1)
                && final(self).head_spec() == head_after(old(self).head_spec() as int, n + 1, old(self).cap_spec() as int),
            n >= old(self)@.len() ==> r is None && final(self)@ == Seq::<T>::empty() && final(self).head_spec() == 0,
    {
        if self.ring.len <= n {
            self.ring.clear();
            return None;
        }
        if n == 0 {
            let r = self.next();
            assert(old(self)@.drop_first() =~= old(self)@.skip(1));
            return r;
        }
        let ghost before = self.ring@;
        let cap = self.ring.capacity();
        let head = self.ring.head;
        let mut k: usize = 0;
        while k < n
            invariant
                self.ring.raw_wf(),
                self.ring.head == head,
                self.ring.len == before.len(),
                self.ring.cap_spec() == cap,
                n < before.len(),
                before.len() <= cap,
                k <= n,
                forall|i: int| 0 <= i < k ==> #[trigger] self.ring.slot_at(i) is None,
                forall|i: int|
                    k <= i < cap ==> #[trigger] self.ring.slot_at(i) == old(self).ring.slot_at(i),
                forall|i: int| 0 <= i < before.len() ==> #[trigger] old(self).ring.slot_at(i) is Some,
                forall|i: int|
                    before.len() <= i < cap ==> #[trigger] old(self).ring.slot_at(i) is None,
                forall|i: int|
                    0 <= i < before.len() ==> before[i] == (#[trigger] old(self).ring.slot_at(i))->0,
            decreases n - k,
        {
            let ghost prev = self.ring;
            let _ = self.ring.take_at(k);
            assert forall|i: int| 0 <= i <= k implies #[trigger] self.ring.slot_at(i) is None by {
                assert(i < k ==> self.ring.slot_at(i) == prev.slot_at(i));
            }
            assert forall|i: int| k < i < cap implies #[trigger] self.ring.slot_at(i) == old(
                self).ring.slot_at(i) by {
                assert(self.ring.slot_at(i) == prev.slot_at(i));
            }
            k = k + 1;
        }
        let ghost mid = self.ring;
        let len = self.ring.len - n;
        self.ring.advance(n, len);
        assert forall|i: int| 0 <= i < len implies #[trigger] self.ring.slot_at(i) == old(
            self).ring.slot_at(i + n) by {
            assert(self.ring.slot_at(i) == mid.slot_at(i + n));
        }
        assert forall|i: int| len <= i < cap implies #[trigger] self.ring.slot_at(i) is None by {
            if i < cap - n {
                assert(self.ring.slot_at(i) == mid.slot_at(i + n));
                assert(mid.slot_at(i + n) == old(self).ring.slot_at(i + n));
            } else {
                assert(self.ring.slot_at(i) == mid.slot_at(i + n - cap));
                assert(mid.slot_at(i + n - cap) is None);
            }
        }
        assert forall|i: int| 0 <= i < len implies #[trigger] self.ring.slot_at(i) is Some by {
            assert(self.ring.slot_at(i) == old(self).ring.slot_at(i + n));
        }
        assert(self.ring.wf());
        assert(self.ring@ =~= before.skip(n as int));
        let r = self.next();
        assert(before.skip(n as int).drop_first() =~= before.skip(n + 1));
        r
    }

    /// Number of values not yet yielded.
    pub fn len(&self) -> (r: usize)
        requires
            self.wf(),
        ensures
            r == self@.len(),
    {
        self.ring.len()
    }

    /// Number of values not yet yielded; drops them.
    pub fn count(self) -> (r: usize)
        requires
            self.wf(),
        ensures
            r == self@.len(),
    {
        self.ring.len()
    }

    /// Exact bounds on the number of values not yet yielded.
    pub fn size_hint(&self) -> (r: (usize, Option<usize>))
        requires
            self.wf(),
        ensures
            r.0 == self@.len(),
            r.1 == Some(self@.len() as usize),
    {
        let len = self.ring.len();
        (len, Some(len))
    }
}

/// Shared iterator over a ring buffer, from both ends.
pub struct Iter<'a, T> {
    ring: &'a RingBuffer<T>,
    front: usize,
    back: usize,
}

impl<'a, T> View for Iter<'a, T> {
    type V = Seq<T>;

    /// The values not yet yielded, front first.
    closed spec fn view(&self) -> Seq<T> {
        self.ring@.subrange(self.front as int, self.back as int)
    }
}

impl<'a, T> Iter<'a, T> {
    pub closed spec fn wf(&self) -> bool {
        &&& self.ring.wf()
        &&& self.front <= self.back <= self.ring@.len()
    }

    /// Yields the front value.
    pub fn next(&mut self) -> (r: Option<&'a T>)
        requires
            old(self).wf(),
        ensures
            final(self).wf(),
            old(self)@.len() == 0 ==> r is None && final(self)@ == old(self)@,
            old(self)@.len() > 0 ==> r == Some(&old(self)@[0]) && final(self)@ == old(self)@.drop_first(),
    {
        if self.front < self.back {
            let r = self.ring.value_at(self.front);
            self.front = self.front + 1;
            assert(self@ =~= old(self)@.drop_first());
            Some(r)
        } else {
            None
        }
    }

    /// Yields the back value.
    pub fn next_back(&mut self) -> (r: Option<&'a T>)
        requires
            old(self).wf(),
        ensures
            final(self).wf(),
            old(self)@.len() == 0 ==> r is None && final(self)@ == old(self)@,
            old(self)@.len() > 0 ==> r == Some(&old(self)@.last()) && final(self)@ == old(self)@.drop_last(),
    {
        if self.front < self.back {
            self.back = self.back - 1;
            let r = self.ring.value_at(self.back);
            assert(self@ =~= old(self)@.drop_last());
            Some(r)
        } else {
            None
        }
    }

    /// Skips `n` values from the front and yields the next one.
    pub fn nth(&mut self, n: usize) -> (r: Option<&'a T>)
        requires
            old(self).wf(),
        ensures
            final(self).wf(),
            n < old(self)@.len() ==> r == Some(&old(self)@[n as int]) && final(self)@ == old(self)@.skip(n + 1),
            n >= old(self)@.len() ==> r is None && final(self)@ == Seq::<T>::empty(),
    {
        if n < self.back - self.front {
            self.front = self.front + n;
            let r = self.ring.value_at(self.front);
            self.front = self.front + 1;
            assert(self@ =~= old(self)@.skip(n + 1));
            Some(r)
        } else {
            self.front = self.back;
            assert(self@ =~= Seq::<T>::empty());
            None
        }
    }

    /// Skips `n` values from the back and yields the one before them.
    pub fn nth_back(&mut self, n: usize) -> (r: Option<&'a T>)
        requires
            old(self).wf(),
        ensures
            final(self).wf(),
            n < old(self)@.len() ==> r == Some(&old(self)@[old(self)@.len() - 1 - n]) && final(self)@ == old(self)@.take(old(self)@.len() - 1 - n),
            n >= old(self)@.len() ==> r is None && final(self)@ == Seq::<T>::empty(),
    {
        if n < self.back - self.front {
            self.back = self.back - n - 1;
            let r = self.ring.value_at(self.back);
            assert(self@ =~= old(self)@.take(old(self)@.len() - 1 - n));
            Some(r)
        } else {
            self.back = self.front;
            assert(self@ =~= Seq::<T>::empty());
            None
        }
    }

    /// The back value, if any.
    pub fn last(self) -> (r: Option<&'a T>)
        requires
            self.wf(),
        ensures
            self@.len() == 0 ==> r is None,
            self@.len() > 0 ==> r == Some(&self@.last()),
    {
        if self.front < self.back {
            Some(self.ring.value_at(self.back - 1))
        } else {
            None
        }
    }

    /// Number of values not yet yielded.
    pub fn count(self) -> (r: usize)
        requires
            self.wf(),
        ensures
            r == self@.len(),
    {
        self.back - self.front
    }

    /// Lower bound on the number of values not yet yielded (the exact count), and no upper
    /// bound.
    pub fn size_hint(&self) -> (r: (usize, Option<usize>))
        requires
            self.wf(),
        ensures
            r.0 == self@.len(),
            r.1 is None,
    {
        (self.back - self.front, None)
    }
}

} // verus!
