//! Capability tokens owning disjoint subsets of the interrupt flags.
//!
//! An [`OwnedInterruptSet`] proves the exclusive right to read and clear a
//! specific subset of the pending-flags register of one peripheral. Across
//! all live tokens of one peripheral the owned bitmasks are pairwise
//! disjoint: bring-up hands out a single token covering all thirty valid
//! bits, and [`OwnedInterruptSet::split`] and [`OwnedInterruptSet::join`]
//! move bits between tokens without ever duplicating them. Every hardware
//! access through a token is masked to the bits it owns, so holders of
//! disjoint tokens can never disturb one another's flags.

use vstd::prelude::*;
use core::marker::PhantomData;
use crate::flags::{InterruptSet, Iter, VALID_BITS};
use crate::regs::InterruptRegs;
use crate::state;

verus! {

/// An input set contained interrupts that were not available. The set
/// wrapped in the error indicates which elements caused the problem.
#[derive(Debug)]
pub struct MaskError(pub InterruptSet);

/// Has exclusive access to a set of interrupts of the `Id` CAN peripheral.
/// Permits safe access to the owned interrupt flags.
///
/// `State` records what is known about the enablement of the owned
/// interrupts; see [`crate::state`].
#[must_use]
#[verifier::reject_recursive_types(Id)]
#[verifier::reject_recursive_types(State)]
pub struct OwnedInterruptSet<Id, State = state::Dynamic> {
    set: InterruptSet,
    _markers: PhantomData<(Id, State)>,
}

impl<Id, State> OwnedInterruptSet<Id, State> {
    /// The bitmask of interrupts this token owns.
    pub closed spec fn mask(&self) -> u32 {
        self.set.0
    }

    /// A token never owns the reserved bit positions 30 and 31.
    pub open spec fn wf(&self) -> bool {
        self.mask() & !VALID_BITS == 0
    }

    /// Assumes exclusive ownership of `interrupts`. Callers must hand in
    /// bits moved out of another token (or the full mask, once, at
    /// bring-up), or the disjointness between live tokens is lost.
    pub(crate) fn new(interrupts: InterruptSet) -> (r: Self)
        ensures
            r.mask() == interrupts.0,
    {
        OwnedInterruptSet { set: interrupts, _markers: PhantomData }
    }

    /// The owned interrupts, as a plain set value.
    pub fn interrupt_set(&self) -> (r: InterruptSet)
        ensures
            r.0 == self.mask(),
    {
        self.set
    }

    /// Create an empty owned set: it aliases nothing, so it is always safe
    /// to construct, in any state.
    pub fn empty() -> (r: Self)
        ensures
            r.mask() == 0,
            r.wf(),
    {
        proof {
            assert(0u32 & !0x3fff_ffffu32 == 0) by (bit_vector);
        }
        Self::new(InterruptSet(0))
    }

    /// Moves ownership of the interrupts described by `subset` from `self`
    /// to the return value. If `self` does not own all of `subset`, nothing
    /// moves and the error carries exactly the bits that were not owned.
    pub fn split(&mut self, subset: InterruptSet) -> (r: Result<Self, MaskError>)
        ensures
            match r {
                Ok(out) => {
                    &&& subset.0 & !old(self).mask() == 0
                    &&& out.mask() == subset.0
                    &&& final(self).mask() == old(self).mask() & !subset.0
                    &&& old(self).wf() ==> out.wf() && final(self).wf()
                },
                Err(e) => {
                    &&& e.0.0 == subset.0 & !old(self).mask()
                    &&& subset.0 & !old(self).mask() != 0
                    &&& *final(self) == *old(self)
                },
            },
    {
        let missing = !self.set.0 & subset.0;
        if missing != 0 {
            proof {
                let m = old(self).mask();
                let s = subset.0;
                assert(!m & s == s & !m) by (bit_vector);
            }
            Err(MaskError(InterruptSet(missing)))
        } else {
            proof {
                let m = old(self).mask();
                let s = subset.0;
                assert(!m & s == 0 ==> m & s == s && s & !m == 0) by (bit_vector);
            }
            Ok(self.split_leniently(subset))
        }
    }

    /// Assume ownership of the interrupts in `other`. The two tokens must
    /// be disjoint — they always are when both came from honest splits of
    /// one bring-up token — and should be known compatible: nothing here
    /// checks that they were enabled on the same line.
    pub fn join(&mut self, other: Self)
        requires
            old(self).mask() & other.mask() == 0,
        ensures
            final(self).mask() == old(self).mask() | other.mask(),
            old(self).wf() && other.wf() ==> final(self).wf(),
    {
        proof {
            let a = old(self).mask();
            let b = other.mask();
            assert(a & !0x3fff_ffffu32 == 0 && b & !0x3fff_ffffu32 == 0
                ==> (a | b) & !0x3fff_ffffu32 == 0) by (bit_vector);
        }
        self.set.0 = self.set.0 | other.set.0;
    }

    /// Moves ownership of the interrupts described by `subset` from `self`
    /// to the return value. Ones not owned by `self` are ignored.
    fn split_leniently(&mut self, subset: InterruptSet) -> (r: Self)
        ensures
            r.mask() == old(self).mask() & subset.0,
            final(self).mask() == old(self).mask() & !subset.0,
            old(self).wf() ==> r.wf() && final(self).wf(),
    {
        proof {
            let m = old(self).mask();
            let s = subset.0;
            assert(m & !0x3fff_ffffu32 == 0
                ==> (m & s) & !0x3fff_ffffu32 == 0
                    && (m & !s) & !0x3fff_ffffu32 == 0) by (bit_vector);
        }
        let remaining = self.set.0 & !subset.0;
        let split_out = self.set.0 & subset.0;
        self.set.0 = remaining;
        Self::new(InterruptSet(split_out))
    }

    /// Re-tags the token. Free towards `Dynamic`; towards a specific state
    /// only right after an operation that made the hardware match it.
    pub(crate) fn convert<NewState>(self) -> (r: OwnedInterruptSet<Id, NewState>)
        ensures
            r.mask() == self.mask(),
            self.wf() ==> r.wf(),
    {
        OwnedInterruptSet::new(self.set)
    }
}

impl<Id, State: state::Static> OwnedInterruptSet<Id, State> {
    /// Widens a statically known state to `Dynamic`, which is always
    /// sound: `Dynamic` stands for any actual hardware state.
    pub fn into_dynamic(self) -> (r: OwnedInterruptSet<Id, state::Dynamic>)
        ensures
            r.mask() == self.mask(),
            self.wf() ==> r.wf(),
    {
        self.convert()
    }
}

impl<Id, State> Default for OwnedInterruptSet<Id, State> {
    /// The empty token.
    fn default() -> (r: Self)
        ensures
            r.mask() == 0,
            r.wf(),
    {
        Self::empty()
    }
}

impl<Id, State: state::MaybeEnabled> OwnedInterruptSet<Id, State> {
    /// Get the subset of interrupts in this set that are currently flagged:
    /// the pending-flags register masked to the owned bits. Read-only — no
    /// flag is cleared, and bits of other tokens are never exposed.
    pub fn interrupt_flags(&self, regs: &InterruptRegs) -> (r: InterruptSet)
        ensures
            r.0 == regs.ir & self.mask(),
    {
        InterruptSet(regs.ir & self.set.0)
    }

    /// Clear the indicated `interrupts`. Interrupts not owned by this token
    /// are silently ignored: the write-one-to-clear store is masked to the
    /// owned bits, so no other token's flags are disturbed.
    pub fn clear_interrupts(&self, regs: &mut InterruptRegs, interrupts: InterruptSet)
        ensures
            final(regs).ir == old(regs).ir & !(interrupts.0 & self.mask()),
            final(regs).ils == old(regs).ils,
            final(regs).ile == old(regs).ile,
            final(regs).ie == old(regs).ie,
    {
        let masked = interrupts.0 & self.set.0;
        regs.write_ir(masked);
    }

    /// Moves ownership of the interrupts that were flagged to the return
    /// value; `self` keeps the rest. No flag is cleared.
    pub fn split_flagged(&mut self, regs: &InterruptRegs) -> (r: Self)
        ensures
            r.mask() == old(self).mask() & regs.ir,
            final(self).mask() == old(self).mask() & !regs.ir,
            old(self).wf() ==> r.wf() && final(self).wf(),
    {
        let flagged = InterruptSet(regs.ir & self.set.0);
        proof {
            let m = old(self).mask();
            let f = regs.ir;
            assert(m & (f & m) == m & f && m & !(f & m) == m & !f) by (bit_vector);
        }
        self.split_leniently(flagged)
    }

    /// Clears the flagged interrupts owned by this token and provides an
    /// iterator over the flags that were cleared. Exactly the returned
    /// flags are cleared, so an immediate further read through this token
    /// comes back empty; a flag that turns pending between the internal
    /// read and clear is lost without being reported, but flags of other
    /// tokens are never touched.
    pub fn iter_flagged(&self, regs: &mut InterruptRegs) -> (r: Iter)
        ensures
            r.spec_flags() == old(regs).ir & self.mask(),
            r.remaining() == crate::flags::flags_from(old(regs).ir & self.mask(), 0),
            final(regs).ir == old(regs).ir & !(old(regs).ir & self.mask()),
            final(regs).ir & self.mask() == 0,
            final(regs).ils == old(regs).ils,
            final(regs).ile == old(regs).ile,
            final(regs).ie == old(regs).ie,
    {
        let interrupts = self.interrupt_flags(regs);
        self.clear_interrupts(regs, interrupts);
        proof {
            let x = old(regs).ir;
            let m = self.mask();
            assert((x & m) & m == x & m) by (bit_vector);
            assert((x & !(x & m)) & m == 0) by (bit_vector);
        }
        interrupts.iter()
    }
}

/// Splitting a fully contained `subset` out of a token owning `original`
/// partitions it: the remainder is the symmetric difference, the two parts
/// are disjoint, and together they restore the original mask.
pub proof fn lemma_split_partitions(original: u32, subset: u32)
    by (bit_vector)
    requires
        subset & !original == 0,
    ensures
        original & !subset == original ^ subset,
        (original & !subset) & subset == 0,
        (original & !subset) | subset == original,
{
}

/// `join` inverts `split`: after merging disjoint masks `a` and `b`,
/// splitting `a` back out succeeds, returns exactly `a`, and leaves exactly
/// `b` behind.
pub proof fn lemma_join_split_inverse(a: u32, b: u32)
    by (bit_vector)
    requires
        a & b == 0,
    ensures
        a & !(a | b) == 0,
        (a | b) & !a == b,
{
}

} // verus!
