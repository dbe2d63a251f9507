//! Packs a small state into the low bits of an address.
//!
//! An address of a `T` is a multiple of `T`'s alignment, so its low bits (as many as the
//! alignment has trailing zeros) are free to carry a state. `PtrState` holds the packed
//! word: the address part is the word with the state bits cleared, the state is the word's
//! state bits. Addresses are plain `usize` values here.
use vstd::prelude::*;
use vstd::layout::align_of;
use vstd::arithmetic::power2::pow2;
use vstd::std_specs::cmp::PartialEqSpecImpl;
use core::marker::PhantomData;
use core::sync::atomic::{AtomicUsize, Ordering};

verus! {

broadcast use vstd::layout::align_nonzero, vstd::layout::align_properties;

/// Mask of the state bits for addresses of `T`: the alignment minus one.
pub open spec fn state_mask_of<T>() -> usize {
    (align_of::<T>() - 1) as usize
}

/// Address part of a packed word: the word with the state bits cleared.
pub open spec fn addr_part(word: usize, mask: usize) -> usize {
    (word - (word & mask)) as usize
}

/// State part of a packed word.
pub open spec fn state_part(word: usize, mask: usize) -> usize {
    word & mask
}

/// Packs an address and a state by adding them, wrapping around on overflow.
pub open spec fn pack(addr: usize, state: usize) -> usize {
    addr.wrapping_add(state)
}

/// Mask of the state bits for addresses of `T`.
pub fn state_mask<T>() -> (r: usize)
    ensures
        r == state_mask_of::<T>(),
        r as nat + 1 == align_of::<T>(),
{
    let align = core::mem::align_of::<T>();
    align - 1
}

/// Mask of the address bits for addresses of `T`.
pub fn addr_mask<T>() -> (r: usize)
    ensures
        r == !state_mask_of::<T>(),
{
    !state_mask::<T>()
}

/// Number of state bits for addresses of `T`: the number of trailing zeros of the
/// alignment.
pub fn state_bits<T>() -> (r: u32)
    ensures
        pow2(r as nat) == align_of::<T>(),
{
    let align = core::mem::align_of::<T>();
    let mut m: usize = align;
    let mut bits: u32 = 0;
    proof {
        vstd::arithmetic::power2::lemma2_to64();
    }
    while m > 1
        invariant
            m >= 1,
            bits < 64,
            vstd::arithmetic::power2::is_pow2(m as int),
            pow2(bits as nat) * m == align,
            align == align_of::<T>(),
            align <= usize::MAX,
        decreases m,
    {
        proof {
            reveal(vstd::arithmetic::power2::is_pow2);
            assert(m % 2 == 0 && vstd::arithmetic::power2::is_pow2((m / 2) as int));
            vstd::arithmetic::power2::lemma_pow2_unfold((bits + 1) as nat);
            vstd::arithmetic::power2::lemma2_to64();
            let p = pow2(bits as nat);
            assert(p * 2 * (m / 2) == p * m) by (nonlinear_arith)
                requires
                    m % 2 == 0,
            ;
            assert(p * m >= p * 2) by (nonlinear_arith)
                requires
                    m >= 2,
                    p >= 0,
            ;
            if bits >= 63 {
                if bits > 63 {
                    vstd::arithmetic::power2::lemma_pow2_strictly_increases(63, bits as nat);
                }
                assert(p >= pow2(63));
                assert(false);
            }
        }
        m = m / 2;
        bits = bits + 1;
    }
    proof {
        reveal(vstd::arithmetic::power2::is_pow2);
    }
    bits
}

proof fn lemma_split_word(word: usize, mask: usize)
    ensures
        word & mask <= word,
        (word - (word & mask)) as usize & mask == 0,
        ((word - (word & mask)) as usize) + (word & mask) == word,
        (word & mask) & mask == word & mask,
{
    assert(word & mask <= word) by (bit_vector);
    assert(((word - (word & mask)) as usize) & mask == 0) by (bit_vector);
    assert((word & mask) & mask == word & mask) by (bit_vector);
}

proof fn lemma_pack_fits(addr: usize, state: usize, mask: usize)
    requires
        addr & mask == 0,
        state & mask == state,
    ensures
        addr + state <= usize::MAX,
        ((addr + state) as usize) & mask == state,
        ((addr + state) as usize) - state == addr,
{
    assert(addr + state == (addr | state)) by (bit_vector)
        requires
            addr & mask == 0,
            state & mask == state,
    ;
    assert(((addr + state) as usize) & mask == state) by (bit_vector)
        requires
            addr & mask == 0,
            state & mask == state,
    ;
}

/// Packing an address without state bits with a state that only uses state bits, and
/// splitting the word again, gives back the address and the state.
pub proof fn law_split_after_pack(addr: usize, state: usize, mask: usize)
    requires
        addr & mask == 0,
        state & mask == state,
    ensures
        addr_part(pack(addr, state), mask) == addr,
        state_part(pack(addr, state), mask) == state,
{
    lemma_pack_fits(addr, state, mask);
}

/// Splitting any word into its address and state parts and packing them again gives back
/// the word; the address part has no state bits and the state part no address bits.
pub proof fn law_pack_after_split(word: usize, mask: usize)
    ensures
        pack(addr_part(word, mask), state_part(word, mask)) == word,
        addr_part(word, mask) & mask == 0,
        state_part(word, mask) & mask == state_part(word, mask),
{
    lemma_split_word(word, mask);
}

/// A state value for addresses of `T`: only the state bits may be set.
pub struct State<T>(usize, PhantomData<T>);

impl<T> View for State<T> {
    type V = usize;

    closed spec fn view(&self) -> usize {
        self.0
    }
}

impl<T> State<T> {
    #[verifier::type_invariant]
    closed spec fn inv(self) -> bool {
        self.0 & state_mask_of::<T>() == self.0
    }

    /// The zero state.
    pub fn zero() -> (r: Self)
        ensures
            r@ == 0,
    {
        proof {
            let m = state_mask_of::<T>();
            assert(0usize & m == 0usize) by (bit_vector);
        }
        State(0, PhantomData)
    }

    /// The state's value.
    pub fn value(&self) -> (r: usize)
        ensures
            r == self@,
            r & state_mask_of::<T>() == r,
    {
        proof {
            use_type_invariant(self);
        }
        self.0
    }

    /// The state `value`, or `None` when `value` sets a bit outside the state bits.
    pub fn new(value: usize) -> (r: Option<Self>)
        ensures
            r is Some <==> value & state_mask_of::<T>() == value,
            r is Some ==> r->0@ == value,
    {
        let mask = state_mask::<T>();
        if value & mask == value {
            Some(State(value, PhantomData))
        } else {
            None
        }
    }

    /// The state `value` with the bits outside the state bits cleared.
    pub fn new_truncated(value: usize) -> (r: Self)
        ensures
            r@ == value & state_mask_of::<T>(),
    {
        let mask = state_mask::<T>();
        proof {
            lemma_split_word(value, mask);
        }
        State(value & mask, PhantomData)
    }
}

impl<T> Clone for State<T> {
    fn clone(&self) -> (r: Self)
        ensures
            r == *self,
    {
        proof {
            use_type_invariant(self);
        }
        State(self.0, PhantomData)
    }
}

impl<T> Copy for State<T> {

}

impl<T> PartialEq for State<T> {
    fn eq(&self, other: &Self) -> (r: bool) {
        self.0 == other.0
    }
}

impl<T> PartialEqSpecImpl for State<T> {
    open spec fn obeys_eq_spec() -> bool {
        true
    }

    open spec fn eq_spec(&self, other: &Self) -> bool {
        self@ == other@
    }
}

impl<T> Eq for State<T> {

}

impl<T> From<State<T>> for usize {
    fn from(state: State<T>) -> (r: usize) {
        state.value()
    }
}

impl<T> vstd::std_specs::convert::FromSpecImpl<State<T>> for usize {
    open spec fn obeys_from_spec() -> bool {
        true
    }

    open spec fn from_spec(state: State<T>) -> usize {
        state@
    }
}

/// A packed word: an address of a `T` with a state in its low bits.
pub struct PtrState<T>(usize, PhantomData<T>);

impl<T> View for PtrState<T> {
    type V = usize;

    /// The packed word.
    closed spec fn view(&self) -> usize {
        self.0
    }
}

impl<T> PtrState<T> {
    /// Null address with the zero state.
    pub fn null_zero() -> (r: Self)
        ensures
            r@ == 0,
    {
        PtrState(0, PhantomData)
    }

    /// Null address with `state`.
    pub fn null_state(state: State<T>) -> (r: Self)
        ensures
            r@ == pack(0, state@),
            r@ == state@,
    {
        PtrState::new(0, state)
    }

    /// Packs `addr` with `state`. The address is expected to have no state bits; the
    /// word is their wrapping sum either way.
    pub fn new(addr: usize, state: State<T>) -> (r: Self)
        ensures
            r@ == pack(addr, state@),
    {
        PtrState(addr.wrapping_add(state.value()), PhantomData)
    }

    /// `addr` with the zero state: the word is `addr` itself. The address must carry no
    /// state bits.
    pub fn new_zero(addr: usize) -> (r: Self)
        requires
            addr & state_mask_of::<T>() == 0,
        ensures
            r@ == addr,
            addr_part(r@, state_mask_of::<T>()) == addr,
            state_part(r@, state_mask_of::<T>()) == 0,
    {
        PtrState(addr, PhantomData)
    }

    /// Takes `raw` as the packed word, keeping any state bits it has.
    pub fn from_raw(raw: usize) -> (r: Self)
        ensures
            r@ == raw,
    {
        PtrState(raw, PhantomData)
    }

    /// The packed word, address and state bits together.
    pub fn raw(&self) -> (r: usize)
        ensures
            r == self@,
    {
        self.0
    }

    /// This word's address packed with a new state.
    pub fn with_state(&self, state: State<T>) -> (r: Self)
        ensures
            r@ == pack(addr_part(self@, state_mask_of::<T>()), state@),
            addr_part(r@, state_mask_of::<T>()) == addr_part(self@, state_mask_of::<T>()),
            state_part(r@, state_mask_of::<T>()) == state@,
    {
        let addr = self.ptr();
        let r = PtrState::new(addr, state);
        proof {
            use_type_invariant(state);
            law_pack_after_split(self@, state_mask_of::<T>());
            law_split_after_pack(addr, state@, state_mask_of::<T>());
        }
        r
    }

    /// A new address packed with this word's state.
    pub fn with_ptr(&self, addr: usize) -> (r: Self)
        ensures
            r@ == pack(addr, state_part(self@, state_mask_of::<T>())),
            addr & state_mask_of::<T>() == 0 ==> addr_part(r@, state_mask_of::<T>()) == addr
                && state_part(r@, state_mask_of::<T>()) == state_part(self@, state_mask_of::<T>()),
    {
        let state = self.state();
        let r = PtrState::new(addr, state);
        proof {
            law_pack_after_split(self@, state_mask_of::<T>());
            if addr & state_mask_of::<T>() == 0 {
                law_split_after_pack(addr, state@, state_mask_of::<T>());
            }
        }
        r
    }

    /// The address part: the word with its state bits cleared.
    pub fn ptr(&self) -> (r: usize)
        ensures
            r == addr_part(self@, state_mask_of::<T>()),
            r & state_mask_of::<T>() == 0,
    {
        let mask = state_mask::<T>();
        proof {
            lemma_split_word(self.0, mask);
        }
        let state = self.0 & mask;
        self.0.wrapping_sub(state)
    }

    /// The state part: the word's state bits.
    pub fn state(&self) -> (r: State<T>)
        ensures
            r@ == state_part(self@, state_mask_of::<T>()),
    {
        let mask = state_mask::<T>();
        proof {
            lemma_split_word(self.0, mask);
        }
        State(self.0 & mask, PhantomData)
    }
}

impl<T> Clone for PtrState<T> {
    fn clone(&self) -> (r: Self)
        ensures
            r == *self,
    {
        PtrState(self.0, PhantomData)
    }
}

impl<T> Copy for PtrState<T> {

}

impl<T> PartialEq for PtrState<T> {
    fn eq(&self, other: &Self) -> (r: bool) {
        self.0 == other.0
    }
}

impl<T> PartialEqSpecImpl for PtrState<T> {
    open spec fn obeys_eq_spec() -> bool {
        true
    }

    open spec fn eq_spec(&self, other: &Self) -> bool {
        self@ == other@
    }
}

impl<T> Eq for PtrState<T> {

}

/// A packed word in an atomic cell. Reads return whatever word the cell holds at that
/// moment, so nothing is promised of them.
pub struct AtomicPtrState<T> {
    atomic: AtomicUsize,
    marker: PhantomData<T>,
}

impl<T> AtomicPtrState<T> {
    /// Cell holding the null address with the zero state.
    pub fn null_zero() -> (r: Self) {
        AtomicPtrState::from_ptr_state(PtrState::null_zero())
    }

    /// Cell holding the null address with `state`.
    pub fn null_state(state: State<T>) -> (r: Self) {
        AtomicPtrState::from_ptr_state(PtrState::null_state(state))
    }

    /// Cell holding `addr` packed with `state`.
    pub fn new(addr: usize, state: State<T>) -> (r: Self) {
        AtomicPtrState::from_ptr_state(PtrState::new(addr, state))
    }

    /// Cell holding `addr` with the zero state. The address must carry no state bits.
    pub fn new_zero(addr: usize) -> (r: Self)
        requires
            addr & state_mask_of::<T>() == 0,
    {
        AtomicPtrState::from_ptr_state(PtrState::new_zero(addr))
    }

    /// Cell holding the word `raw`, state bits included.
    pub fn from_raw(raw: usize) -> (r: Self) {
        AtomicPtrState::from_ptr_state(PtrState::from_raw(raw))
    }

    /// Cell holding the packed word `ptr_state`.
    pub fn from_ptr_state(ptr_state: PtrState<T>) -> (r: Self) {
        AtomicPtrState { atomic: AtomicUsize::new(ptr_state.raw()), marker: PhantomData }
    }

    /// Loads the packed word. A load cannot have release semantics.
    pub fn load(&self, order: Ordering) -> (r: PtrState<T>)
        requires
            crate::condvar::is_load_ordering(order),
    {
        PtrState::from_raw(self.atomic.load(order))
    }

    /// Stores the packed word `value`. A store cannot have acquire semantics.
    pub fn store(&self, value: PtrState<T>, order: Ordering)
        requires
            crate::condvar::is_store_ordering(order),
    {
        self.atomic.store(value.raw(), order);
    }

    /// Stores `value` and returns the word it replaced.
    pub fn swap(&self, value: PtrState<T>, order: Ordering) -> (r: PtrState<T>) {
        PtrState::from_raw(self.atomic.swap(value.raw(), order))
    }

    /// Stores `new` if the cell holds `current`. Returns `Ok` with the previous word when
    /// it stored, `Err` with the word found otherwise.
    pub fn compare_exchange(
        &self,
        current: PtrState<T>,
        new: PtrState<T>,
        success: Ordering,
        failure: Ordering,
    ) -> (r: Result<PtrState<T>, PtrState<T>>)
        requires
            crate::condvar::is_load_ordering(failure),
    {
        match self.atomic.compare_exchange(current.raw(), new.raw(), success, failure) {
            Ok(word) => Ok(PtrState::from_raw(word)),
            Err(word) => Err(PtrState::from_raw(word)),
        }
    }

    /// Like `compare_exchange`, but may fail even when the cell holds `current`.
    pub fn compare_exchange_weak(
        &self,
        current: PtrState<T>,
        new: PtrState<T>,
        success: Ordering,
        failure: Ordering,
    ) -> (r: Result<PtrState<T>, PtrState<T>>)
        requires
            crate::condvar::is_load_ordering(failure),
    {
        match self.atomic.compare_exchange_weak(current.raw(), new.raw(), success, failure) {
            Ok(word) => Ok(PtrState::from_raw(word)),
            Err(word) => Err(PtrState::from_raw(word)),
        }
    }
}

} // verus!
