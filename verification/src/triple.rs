//! Triple buffer: a single producer and a single consumer exchange values through three
//! slots.
//!
//! One slot belongs to the producer, one to the consumer and one is pending. A flags byte
//! holds the pending slot's index (low two bits) and whether the pending slot was published
//! and not yet consumed (bit two). Publishing swaps in the producer's slot as the pending
//! one, marked published; consuming swaps in the consumer's slot, unmarked. Each side gets
//! the previous pending slot back.
use vstd::prelude::*;
use core::marker::PhantomData;
use core::mem::MaybeUninit;
use core::ops::Deref;
use core::sync::atomic::{AtomicU8, Ordering};

verus! {

/// Flags of a fresh buffer: slot zero pending, nothing published.
pub const FLAGS_INIT: u8 = 0;

/// Bits of the flags that hold the pending slot's index.
pub const INDEX_MASK: u8 = 3;

/// Bit of the flags set while the pending slot holds a published, unconsumed value.
pub const PENDING_BIT: u8 = 4;

/// Index of one of the three slots.
#[derive(Clone, Copy, Debug, PartialEq, Eq, Structural)]
pub enum Idx {
    Zero,
    One,
    Two,
}

impl Idx {
    /// The index's number.
    pub open spec fn bits_spec(self) -> u8 {
        match self {
            Idx::Zero => 0,
            Idx::One => 1,
            Idx::Two => 2,
        }
    }

    /// The next index in the cycle zero, one, two.
    pub open spec fn other_spec(self) -> Idx {
        match self {
            Idx::Zero => Idx::One,
            Idx::One => Idx::Two,
            Idx::Two => Idx::Zero,
        }
    }

    /// The index with number `value`, which must be 0, 1 or 2.
    pub fn from_bits(value: u8) -> (r: Idx)
        requires
            value < 3,
        ensures
            r.bits_spec() == value,
    {
        match value {
            0 => Idx::Zero,
            1 => Idx::One,
            _ => Idx::Two,
        }
    }

    /// The index's number.
    pub fn bits(self) -> (r: u8)
        ensures
            r == self.bits_spec(),
    {
        match self {
            Idx::Zero => 0,
            Idx::One => 1,
            Idx::Two => 2,
        }
    }

    /// The index's number as a `usize`.
    pub fn index(self) -> (r: usize)
        ensures
            r == self.bits_spec(),
    {
        match self {
            Idx::Zero => 0,
            Idx::One => 1,
            Idx::Two => 2,
        }
    }

    /// Another index: calling it again gives the third index, and a third call gives
    /// back the first one.
    pub fn other(self) -> (r: Idx)
        ensures
            r == self.other_spec(),
    {
        match self {
            Idx::Zero => Idx::One,
            Idx::One => Idx::Two,
            Idx::Two => Idx::Zero,
        }
    }
}

impl Default for Idx {
    fn default() -> (r: Idx)
        ensures
            r == Idx::Zero,
    {
        Idx::Zero
    }
}

/// `other` walks a cycle of length three through all indices.
pub proof fn law_other_cycle(i: Idx)
    ensures
        i.other_spec() != i,
        i.other_spec().other_spec() != i,
        i.other_spec().other_spec() != i.other_spec(),
        i.other_spec().other_spec().other_spec() == i,
{
}

/// Three indices are pairwise different.
pub open spec fn distinct3(a: Idx, b: Idx, c: Idx) -> bool {
    a != b && b != c && a != c
}

/// Pending index held by a flags word. The low two bits are never both set in a word
/// that this module stores; such a word reads as index two.
pub open spec fn index_of(flags: u8) -> Idx {
    if flags & INDEX_MASK == 0 {
        Idx::Zero
    } else if flags & INDEX_MASK == 1 {
        Idx::One
    } else {
        Idx::Two
    }
}

/// Whether a flags word marks the pending slot as published and not yet consumed.
pub open spec fn is_pending(flags: u8) -> bool {
    flags & PENDING_BIT != 0
}

/// Word stored by a publish of the producer's slot `producer`.
pub open spec fn publish_word_spec(producer: Idx) -> u8 {
    producer.bits_spec() | PENDING_BIT
}

/// Word stored by a consume from the consumer's slot `consumer`.
pub open spec fn consume_word_spec(consumer: Idx) -> u8 {
    consumer.bits_spec()
}

proof fn lemma_words(i: Idx)
    ensures
        index_of(publish_word_spec(i)) == i,
        is_pending(publish_word_spec(i)),
        index_of(consume_word_spec(i)) == i,
        !is_pending(consume_word_spec(i)),
{
    let b = i.bits_spec();
    assert((b | 4u8) & 3u8 == b && (b | 4u8) & 4u8 != 0 && b & 3u8 == b && b & 4u8 == 0)
        by (bit_vector)
        requires
            b < 3,
    ;
}

/// Word to store when publishing the producer's slot `producer`.
pub fn publish_word(producer: Idx) -> (r: u8)
    ensures
        r == publish_word_spec(producer),
{
    producer.bits() | PENDING_BIT
}

/// Word to store when consuming from the consumer's slot `consumer`.
pub fn consume_word(consumer: Idx) -> (r: u8)
    ensures
        r == consume_word_spec(consumer),
{
    consumer.bits()
}

/// Pending index held by `flags`.
pub fn pending_index(flags: u8) -> (r: Idx)
    ensures
        r == index_of(flags),
{
    let bits = flags & INDEX_MASK;
    if bits == 0 {
        Idx::Zero
    } else if bits == 1 {
        Idx::One
    } else {
        Idx::Two
    }
}

/// Whether `flags` shows the last published value consumed (or nothing published).
pub fn consumed_flag(flags: u8) -> (r: bool)
    ensures
        r == !is_pending(flags),
{
    flags & PENDING_BIT == 0
}

/// What a publish hands back when it replaced `flags`: the producer's new slot (the
/// previous pending one) and whether the previously published value was consumed.
pub fn publish_outcome(flags: u8) -> (r: (Idx, bool))
    ensures
        r.0 == index_of(flags),
        r.1 == !is_pending(flags),
{
    (pending_index(flags), consumed_flag(flags))
}

/// What a consume hands back when it replaced `flags`: the consumer's new slot (the
/// previous pending one) and whether a value was published since the last consume.
pub fn consume_outcome(flags: u8) -> (r: (Idx, bool))
    ensures
        r.0 == index_of(flags),
        r.1 == is_pending(flags),
{
    (pending_index(flags), flags & PENDING_BIT != 0)
}

/// A publish keeps the three roles on three different slots: the published slot
/// becomes pending and the producer gets the previous pending slot.
pub proof fn law_publish_keeps_roles(flags: u8, producer: Idx, consumer: Idx)
    requires
        distinct3(index_of(flags), producer, consumer),
    ensures
        index_of(publish_word_spec(producer)) == producer,
        distinct3(index_of(publish_word_spec(producer)), index_of(flags), consumer),
{
    lemma_words(producer);
}

/// A consume keeps the three roles on three different slots: the consumer's slot
/// becomes pending and the consumer gets the previous pending slot.
pub proof fn law_consume_keeps_roles(flags: u8, producer: Idx, consumer: Idx)
    requires
        distinct3(index_of(flags), producer, consumer),
    ensures
        index_of(consume_word_spec(consumer)) == consumer,
        distinct3(index_of(consume_word_spec(consumer)), producer, index_of(flags)),
{
    lemma_words(consumer);
}

/// The buffer acts as a queue of capacity one: a consume right after a publish receives
/// the published slot and learns that it was published; a second consume learns that
/// nothing new was published; a publish right after a consume learns that its previous
/// value was consumed, and a second publish learns that it was not.
pub proof fn law_single_slot_queue(producer: Idx, consumer: Idx)
    ensures
        index_of(publish_word_spec(producer)) == producer,
        is_pending(publish_word_spec(producer)),
        index_of(consume_word_spec(consumer)) == consumer,
        !is_pending(consume_word_spec(consumer)),
{
    lemma_words(producer);
    lemma_words(consumer);
}

/// A fresh buffer's flags have slot zero pending and nothing published, so the first
/// publish reports the (absent) previous value as consumed and a consume before any publish
/// learns that nothing was published.
pub proof fn law_initial_flags()
    ensures
        index_of(FLAGS_INIT) == Idx::Zero,
        !is_pending(FLAGS_INIT),
{
    assert(0u8 & 3u8 == 0 && 0u8 & 4u8 == 0) by (bit_vector);
}

/// Three slots and the flags byte.
pub struct TripleBuffer<T> {
    zero: T,
    one: T,
    two: T,
    flags: AtomicU8,
    /// The flags word that the last exchange made through an exclusive borrow found
    /// (the initial word before any).
    seen: Ghost<u8>,
}

impl<T> TripleBuffer<T> {
    /// The flags word that the last `recv` or `recv_into` found when it exchanged the
    /// flags (the initial word before any).
    pub closed spec fn last_flags(&self) -> u8 {
        self.seen@
    }

    /// Content of slot `i`.
    pub closed spec fn element(&self, i: Idx) -> T {
        match i {
            Idx::Zero => self.zero,
            Idx::One => self.one,
            Idx::Two => self.two,
        }
    }

    /// Buffer with slots holding `a`, `b` and `c`, slot zero pending, nothing published.
    pub fn new(a: T, b: T, c: T) -> (r: Self)
        ensures
            r.element(Idx::Zero) == a,
            r.element(Idx::One) == b,
            r.element(Idx::Two) == c,
    {
        TripleBuffer { zero: a, one: b, two: c, flags: AtomicU8::new(FLAGS_INIT), seen: Ghost(FLAGS_INIT) }
    }

    /// Whether the last published value was consumed (also when nothing was published
    /// yet), as read from the flags at this moment.
    pub fn consumed(&self) -> (r: bool) {
        let flags = self.flags.load(Ordering::Relaxed);
        consumed_flag(flags)
    }

    /// Whether the last published value was consumed; the exclusive borrow keeps the
    /// answer current.
    pub fn consumed_mut(&mut self) -> (r: bool)
        ensures
            *final(self) == *old(self),
    {
        let flags = self.flags.load(Ordering::Relaxed);
        consumed_flag(flags)
    }

    /// The pending slot, as read from the flags at this moment.
    pub fn pending(&self) -> (r: Idx) {
        let flags = self.flags.load(Ordering::Relaxed);
        pending_index(flags)
    }

    /// The pending slot; the exclusive borrow keeps the answer current.
    pub fn pending_mut(&mut self) -> (r: Idx)
        ensures
            *final(self) == *old(self),
    {
        let flags = self.flags.load(Ordering::Relaxed);
        pending_index(flags)
    }

    /// Marks the producer's slot `producer` as pending and published. Returns the
    /// producer's new slot (the previous pending one) and whether the previous published
    /// value was consumed.
    pub fn publish(&self, producer: Idx) -> (r: (Idx, bool)) {
        let flags = self.flags.swap(publish_word(producer), Ordering::AcqRel);
        publish_outcome(flags)
    }

    /// Marks the consumer's slot `consumer` as pending and not published. Returns the
    /// consumer's new slot (the previous pending one) and whether a value was published
    /// since the last consume.
    pub fn consume(&self, consumer: Idx) -> (r: (Idx, bool)) {
        let flags = self.flags.swap(consume_word(consumer), Ordering::AcqRel);
        consume_outcome(flags)
    }

    /// Shared reference to slot `index`.
    pub fn get_unchecked(&self, index: Idx) -> (r: &T)
        ensures
            *r == self.element(index),
    {
        match index {
            Idx::Zero => &self.zero,
            Idx::One => &self.one,
            Idx::Two => &self.two,
        }
    }

    /// A clone of the consumer's slot `consumer`.
    pub fn read(&self, consumer: Idx) -> (r: T)
        where
            T: Clone,
        ensures
            vstd::pervasive::cloned(self.element(consumer), r),
    {
        self.get_unchecked(consumer).clone()
    }

    /// Stores a clone of the consumer's slot `consumer` in `value`.
    pub fn read_into(&self, consumer: Idx, value: &mut T)
        where
            T: Clone,
        ensures
            vstd::pervasive::cloned(self.element(consumer), *final(value)),
    {
        *value = self.read(consumer);
    }

    /// Mutable reference to slot `index`.
    pub fn get_unchecked_mut(&mut self, index: Idx) -> (r: &mut T)
        ensures
            final(self).last_flags() == old(self).last_flags(),
            *r == old(self).element(index),
            *final(r) == final(self).element(index),
            forall|j: Idx| j != index ==> #[trigger] final(self).element(j) == old(self).element(j),
    {
        match index {
            Idx::Zero => &mut self.zero,
            Idx::One => &mut self.one,
            Idx::Two => &mut self.two,
        }
    }

    /// Stores `value` in the producer's slot `producer`.
    pub fn set(&mut self, producer: Idx, value: T)
        ensures
            final(self).last_flags() == old(self).last_flags(),
            final(self).element(producer) == value,
            forall|j: Idx| j != producer ==> #[trigger] final(self).element(j) == old(self).element(j),
    {
        match producer {
            Idx::Zero => self.zero = value,
            Idx::One => self.one = value,
            Idx::Two => self.two = value,
        }
    }

    /// Stores a clone of `value` in the producer's slot `producer`.
    pub fn set_from(&mut self, producer: Idx, value: &T)
        where
            T: Clone,
        ensures
            final(self).last_flags() == old(self).last_flags(),
            vstd::pervasive::cloned(*value, final(self).element(producer)),
            forall|j: Idx| j != producer ==> #[trigger] final(self).element(j) == old(self).element(j),
    {
        let copy = value.clone();
        self.set(producer, copy);
    }

    /// Stores a clone of `value` in the producer's slot and publishes it; returns what
    /// `publish` returns.
    pub fn send_from(&mut self, producer: Idx, value: &T) -> (r: (Idx, bool))
        where
            T: Clone,
        ensures
            vstd::pervasive::cloned(*value, final(self).element(producer)),
            forall|j: Idx| j != producer ==> #[trigger] final(self).element(j) == old(self).element(j),
    {
        self.set_from(producer, value);
        self.publish(producer)
    }

    /// Stores `value` in the producer's slot and publishes it; returns what `publish`
    /// returns.
    pub fn send(&mut self, producer: Idx, value: T) -> (r: (Idx, bool))
        ensures
            final(self).element(producer) == value,
            forall|j: Idx| j != producer ==> #[trigger] final(self).element(j) == old(self).element(j),
    {
        self.set(producer, value);
        self.publish(producer)
    }
}

impl<T> TripleBuffer<T> {
    /// Consumes from the consumer's slot `consumer` and, when a value was published since
    /// the last consume, takes it out of the consumer's new slot, leaving `T::default()`
    /// there. Returns the consumer's new slot and the value.
    pub fn recv(&mut self, consumer: Idx) -> (r: (Idx, Option<T>))
        where
            T: Default,
        ensures
            r.0 == index_of(final(self).last_flags()),
            r.1 is Some <==> is_pending(final(self).last_flags()),
            r.1 is Some ==> r.1 == Some(old(self).element(r.0)),
            forall|j: Idx| j != r.0 ==> #[trigger] final(self).element(j) == old(self).element(j),
            r.1 is None ==> final(self).element(r.0) == old(self).element(r.0),
    {
        let flags = self.flags.swap(consume_word(consumer), Ordering::AcqRel);
        self.seen = Ghost(flags);
        let (new_consumer, produced) = consume_outcome(flags);
        if produced {
            let mut value = T::default();
            std::mem::swap(&mut value, self.get_unchecked_mut(new_consumer));
            (new_consumer, Some(value))
        } else {
            (new_consumer, None)
        }
    }

    /// Consumes from the consumer's slot `consumer` and, when a value was published since
    /// the last consume, stores a clone of the consumer's new slot in `value`. Returns the
    /// consumer's new slot and whether a value was published.
    pub fn recv_into(&mut self, consumer: Idx, value: &mut T) -> (r: (Idx, bool))
        where
            T: Clone,
        ensures
            r.0 == index_of(final(self).last_flags()),
            r.1 == is_pending(final(self).last_flags()),
            forall|j: Idx| #[trigger] final(self).element(j) == old(self).element(j),
            r.1 ==> vstd::pervasive::cloned(old(self).element(r.0), *final(value)),
            !r.1 ==> *final(value) == *old(value),
    {
        let flags = self.flags.swap(consume_word(consumer), Ordering::AcqRel);
        self.seen = Ghost(flags);
        let (new_consumer, produced) = consume_outcome(flags);
        if produced {
            *value = self.read(new_consumer);
            (new_consumer, true)
        } else {
            (new_consumer, false)
        }
    }
}

impl<T> TripleBuffer<Option<T>> {
    /// Buffer whose three slots hold `None`.
    pub fn new_none() -> (r: Self)
        ensures
            r.element(Idx::Zero) is None,
            r.element(Idx::One) is None,
            r.element(Idx::Two) is None,
    {
        TripleBuffer::new(None, None, None)
    }
}

impl<T> TripleBuffer<MaybeUninit<T>> {
    /// Buffer whose three slots are uninitialized.
    pub fn uninit() -> (r: Self) {
        TripleBuffer::new(MaybeUninit::uninit(), MaybeUninit::uninit(), MaybeUninit::uninit())
    }
}

impl<T: Default> Default for TripleBuffer<T> {
    fn default() -> (r: Self) {
        TripleBuffer::new(T::default(), T::default(), T::default())
    }
}

impl<T> TripleBuffer<T> {
    /// Splits the buffer into a producer and a consumer that share it: the producer gets
    /// the slot after the pending one and the consumer the slot after that.
    pub fn split_mut<'a>(&'a mut self) -> (r: (
        TripleBufferProducer<T, &'a TripleBuffer<T>>,
        TripleBufferConsumer<T, &'a TripleBuffer<T>>,
    ))
        ensures
            r.0.producer_spec() != r.1.consumer_spec(),
            r.1.consumer_spec() == r.0.producer_spec().other_spec(),
            r.0.producer_spec().other_spec().other_spec() != r.0.producer_spec(),
            r.0.producer_spec().other_spec().other_spec() != r.1.consumer_spec(),
            r.0.last_consumed_spec(),
            r.0.buffer_spec() == *old(self),
            r.1.buffer_spec() == *old(self),
            r.0.last_flags() == r.1.last_flags(),
            r.0.producer_spec() == index_of(r.0.last_flags()).other_spec(),
            distinct3(index_of(r.0.last_flags()), r.0.producer_spec(), r.1.consumer_spec()),
    {
        let flags = self.flags.load(Ordering::Relaxed);
        let pending = pending_index(flags);
        let producer = pending.other();
        let consumer = producer.other();
        let me: &'a TripleBuffer<T> = self;
        let p = TripleBufferProducer {
            buffer: me,
            producer,
            last_consumed: true,
            seen: Ghost(flags),
            marker: PhantomData,
        };
        let c = TripleBufferConsumer { buffer: me, consumer, seen: Ghost(flags), marker: PhantomData };
        (p, c)
    }

    /// Moves the buffer into an `Arc` and splits it into a producer and a consumer that
    /// share it, with the slots chosen as in `split_mut`.
    pub fn split_arc(self) -> (r: (
        TripleBufferProducer<T, std::sync::Arc<TripleBuffer<T>>>,
        TripleBufferConsumer<T, std::sync::Arc<TripleBuffer<T>>>,
    ))
        ensures
            r.0.producer_spec() != r.1.consumer_spec(),
            r.1.consumer_spec() == r.0.producer_spec().other_spec(),
            r.0.last_consumed_spec(),
            r.0.buffer_spec() == self,
            r.1.buffer_spec() == self,
            r.0.last_flags() == r.1.last_flags(),
            r.0.producer_spec() == index_of(r.0.last_flags()).other_spec(),
            distinct3(index_of(r.0.last_flags()), r.0.producer_spec(), r.1.consumer_spec()),
    {
        let me = self;
        let flags = me.flags.load(Ordering::Relaxed);
        let pending = pending_index(flags);
        let producer = pending.other();
        let consumer = producer.other();
        let arc = std::sync::Arc::new(me);
        let p = TripleBufferProducer {
            buffer: arc.clone(),
            producer,
            last_consumed: true,
            seen: Ghost(flags),
            marker: PhantomData,
        };
        let c = TripleBufferConsumer { buffer: arc, consumer, seen: Ghost(flags), marker: PhantomData };
        (p, c)
    }
}

/// Producer side of a triple buffer reached through `B`.
pub struct TripleBufferProducer<T, B> {
    buffer: B,
    producer: Idx,
    last_consumed: bool,
    /// The flags word that this producer's last publish found (before any, the word read
    /// when the buffer was split).
    seen: Ghost<u8>,
    marker: PhantomData<T>,
}

impl<T, B: Deref<Target = TripleBuffer<T>>> TripleBufferProducer<T, B> {
    /// The producer's slot.
    pub closed spec fn producer_spec(&self) -> Idx {
        self.producer
    }

    /// What the last publish reported (true before the first publish).
    pub closed spec fn last_consumed_spec(&self) -> bool {
        self.last_consumed
    }

    /// The flags word that the last publish found when it exchanged the flags (before
    /// any, the word read when the buffer was split).
    pub closed spec fn last_flags(&self) -> u8 {
        self.seen@
    }

    /// Publishes the producer's slot and moves to the previous pending slot. Returns
    /// whether the previously published value was consumed, and remembers it.
    ///
    /// The flags word found by the exchange decides both: the producer's new slot is its
    /// pending index, whether or not that value was consumed, and the result is whether
    /// it was.
    pub fn publish(&mut self) -> (r: bool)
        ensures
            final(self).last_consumed_spec() == r,
            final(self).producer_spec() == index_of(final(self).last_flags()),
            r == !is_pending(final(self).last_flags()),
    {
        let flags = self.buffer.flags.swap(publish_word(self.producer), Ordering::AcqRel);
        self.seen = Ghost(flags);
        let (new_producer, consumed) = publish_outcome(flags);
        self.last_consumed = consumed;
        self.producer = new_producer;
        consumed
    }

    /// Whether the last published value was consumed, as read now.
    pub fn consumed(&self) -> (r: bool) {
        self.buffer.consumed()
    }

    /// What the last publish reported; true before the first publish.
    pub fn last_consumed(&self) -> (r: bool)
        ensures
            r == self.last_consumed_spec(),
    {
        self.last_consumed
    }
}

impl<'a, T> TripleBufferProducer<T, &'a TripleBuffer<T>> {
    /// The shared buffer.
    pub closed spec fn buffer_spec(&self) -> TripleBuffer<T> {
        *self.buffer
    }

    /// Shared reference to the producer's slot, to look at before publishing it.
    pub fn get(&self) -> (r: &T)
        ensures
            *r == self.buffer_spec().element(self.producer_spec()),
    {
        self.buffer.get_unchecked(self.producer)
    }
}

impl<T> TripleBufferProducer<T, std::sync::Arc<TripleBuffer<T>>> {
    /// The shared buffer.
    pub closed spec fn buffer_spec(&self) -> TripleBuffer<T> {
        *self.buffer
    }

    /// Shared reference to the producer's slot, to look at before publishing it.
    pub fn get(&self) -> (r: &T)
        ensures
            *r == self.buffer_spec().element(self.producer_spec()),
    {
        self.buffer.get_unchecked(self.producer)
    }
}

/// Consumer side of a triple buffer reached through `B`.
pub struct TripleBufferConsumer<T, B> {
    buffer: B,
    consumer: Idx,
    /// The flags word that this consumer's last consume found (before any, the word read
    /// when the buffer was split).
    seen: Ghost<u8>,
    marker: PhantomData<T>,
}

impl<T, B: Deref<Target = TripleBuffer<T>>> TripleBufferConsumer<T, B> {
    /// The consumer's slot.
    pub closed spec fn consumer_spec(&self) -> Idx {
        self.consumer
    }

    /// The flags word that the last consume found when it exchanged the flags (before
    /// any, the word read when the buffer was split).
    pub closed spec fn last_flags(&self) -> u8 {
        self.seen@
    }

    /// Takes the pending slot, handing back the consumer's slot. Returns whether a value
    /// was published since the last consume.
    ///
    /// The flags word found by the exchange decides both: the consumer's new slot is its
    /// pending index, whether or not a value was published, and the result is whether one
    /// was.
    pub fn consume(&mut self) -> (r: bool)
        ensures
            final(self).consumer_spec() == index_of(final(self).last_flags()),
            r == is_pending(final(self).last_flags()),
    {
        let flags = self.buffer.flags.swap(consume_word(self.consumer), Ordering::AcqRel);
        self.seen = Ghost(flags);
        let (new_consumer, published) = consume_outcome(flags);
        self.consumer = new_consumer;
        published
    }

    /// Whether a value was published since the last consume, as read now.
    pub fn published(&self) -> (r: bool) {
        !self.buffer.consumed()
    }
}

impl<'a, T> TripleBufferConsumer<T, &'a TripleBuffer<T>> {
    /// The shared buffer.
    pub closed spec fn buffer_spec(&self) -> TripleBuffer<T> {
        *self.buffer
    }

    /// Shared reference to the consumer's slot, to look at after consuming.
    pub fn get(&self) -> (r: &T)
        ensures
            *r == self.buffer_spec().element(self.consumer_spec()),
    {
        self.buffer.get_unchecked(self.consumer)
    }

    /// A clone of the consumer's slot.
    pub fn read(&self) -> (r: T)
        where
            T: Clone,
        ensures
            vstd::pervasive::cloned(self.buffer_spec().element(self.consumer_spec()), r),
    {
        self.buffer.read(self.consumer)
    }

    /// Stores a clone of the consumer's slot in `value`.
    pub fn read_into(&self, value: &mut T)
        where
            T: Clone,
        ensures
            vstd::pervasive::cloned(self.buffer_spec().element(self.consumer_spec()), *final(value)),
    {
        self.buffer.read_into(self.consumer, value);
    }
}

impl<T> TripleBufferConsumer<T, std::sync::Arc<TripleBuffer<T>>> {
    /// The shared buffer.
    pub closed spec fn buffer_spec(&self) -> TripleBuffer<T> {
        *self.buffer
    }

    /// Shared reference to the consumer's slot, to look at after consuming.
    pub fn get(&self) -> (r: &T)
        ensures
            *r == self.buffer_spec().element(self.consumer_spec()),
    {
        self.buffer.get_unchecked(self.consumer)
    }

    /// A clone of the consumer's slot.
    pub fn read(&self) -> (r: T)
        where
            T: Clone,
        ensures
            vstd::pervasive::cloned(self.buffer_spec().element(self.consumer_spec()), r),
    {
        self.buffer.read(self.consumer)
    }

    /// Stores a clone of the consumer's slot in `value`.
    pub fn read_into(&self, value: &mut T)
        where
            T: Clone,
        ensures
            vstd::pervasive::cloned(self.buffer_spec().element(self.consumer_spec()), *final(value)),
    {
        self.buffer.read_into(self.consumer, value);
    }
}

} // verus!
