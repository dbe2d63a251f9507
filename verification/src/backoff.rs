//! Exponential back-off for waiting loops: spin first, then yield, then advise blocking.
use vstd::prelude::*;

verus! {

/// Number of waits after which `wait` stops spinning and starts yielding.
pub const SPIN_THRESHOLD: usize = 7;

/// Number of waits after which the caller is advised to block.
pub const YIELD_THRESHOLD: usize = 15;

/// Calls `core::hint::spin_loop`: a hint to the processor inside a busy-wait loop. It
/// changes no value, so nothing is stated of it.
#[verifier::external_body]
pub(crate) fn spin_hint() {
    core::hint::spin_loop()
}

/// The kind of pause a wait asks for.
#[derive(Clone, Copy, Debug, PartialEq, Eq, Structural)]
pub enum WaitKind {
    /// Busy-wait with a spin hint.
    Spin,
    /// Give the processor to another thread.
    Yield,
}

/// The wait count after one more wait: it goes up by one until it reaches the yield
/// threshold, and stays there.
pub open spec fn next_count(count: nat) -> nat {
    if count < YIELD_THRESHOLD {
        count + 1
    } else {
        count
    }
}

/// The wait count after `n` more waits.
pub open spec fn count_after_waits(count: nat, n: nat) -> nat
    decreases n,
{
    if n == 0 {
        count
    } else {
        count_after_waits(next_count(count), (n - 1) as nat)
    }
}

/// Waits saturate at the yield threshold: from a count at most the threshold, `n` waits
/// add `n` up to the threshold.
pub proof fn law_waits_saturate(count: nat, n: nat)
    requires
        count <= YIELD_THRESHOLD,
    ensures
        count_after_waits(count, n) == (if count + n < YIELD_THRESHOLD {
            count + n
        } else {
            YIELD_THRESHOLD as nat
        }),
    decreases n,
{
    if n > 0 {
        law_waits_saturate(next_count(count), (n - 1) as nat);
    }
}

/// After `n` waits from a new or reset back-off, blocking is advised exactly when `n`
/// reached the yield threshold; the `k`-th of those waits (from zero) spins exactly when
/// `k` is below the spin threshold.
pub proof fn law_block_after_waits(n: nat, k: nat)
    ensures
        (count_after_waits(0, n) >= YIELD_THRESHOLD) <==> n >= YIELD_THRESHOLD,
        k < YIELD_THRESHOLD ==> (count_after_waits(0, k) < SPIN_THRESHOLD <==> k < SPIN_THRESHOLD),
{
    law_waits_saturate(0, n);
    law_waits_saturate(0, k);
}

/// Waiting hint: exponential spin, then yield, then an advice to block.
pub struct BackOff {
    spin_count: usize,
}

impl BackOff {
    /// Number of waits since creation or the last reset, saturated at the yield threshold.
    pub closed spec fn count(&self) -> nat {
        self.spin_count as nat
    }

    pub closed spec fn wf(&self) -> bool {
        self.spin_count <= YIELD_THRESHOLD
    }

    /// A back-off that has not waited yet.
    pub fn new() -> (r: Self)
        ensures
            r.wf(),
            r.count() == 0,
    {
        BackOff { spin_count: 0 }
    }

    /// Forgets the waits done so far.
    pub fn reset(&mut self)
        ensures
            final(self).wf(),
            final(self).count() == 0,
    {
        self.spin_count = 0;
    }

    /// Counts one wait and tells which pause it asks for: a spin for the first waits,
    /// a yield after that.
    pub fn wait_step(&mut self) -> (r: WaitKind)
        requires
            old(self).wf(),
        ensures
            final(self).wf(),
            r == (if old(self).count() < SPIN_THRESHOLD {
                WaitKind::Spin
            } else {
                WaitKind::Yield
            }),
            final(self).count() == next_count(old(self).count()),
    {
        let kind = if self.spin_count < SPIN_THRESHOLD {
            WaitKind::Spin
        } else {
            WaitKind::Yield
        };
        if self.spin_count < YIELD_THRESHOLD {
            self.spin_count = self.spin_count + 1;
        }
        kind
    }

    /// Waits once. Without threads to yield to, the yielding phase busy-waits too.
    pub fn wait(&mut self)
        requires
            old(self).wf(),
        ensures
            final(self).wf(),
            final(self).count() == next_count(old(self).count()),
    {
        let _kind = self.wait_step();
        spin_hint();
    }

    /// Whether enough waits were done that the caller should block instead.
    pub fn should_block(&self) -> (r: bool)
        ensures
            r == (self.count() >= YIELD_THRESHOLD),
    {
        self.spin_count >= YIELD_THRESHOLD
    }
}

impl Default for BackOff {
    fn default() -> (r: Self)
        ensures
            r.wf(),
            r.count() == 0,
    {
        BackOff::new()
    }
}

} // verus!
