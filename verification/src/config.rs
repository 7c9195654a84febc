//! Enabling, disabling and line routing of owned interrupts.
//!
//! The three configuration registers (line select, line enable, flag
//! enable) are shared between all tokens of a peripheral and are not
//! partitioned bit by bit the way the pending flags are. They are mediated
//! by the single [`InterruptConfiguration`] instance of the peripheral:
//! every update it performs is a read-modify-write masked to the acting
//! token's bits, so the configuration of bits owned by other tokens is
//! never disturbed. Callers must serialise calls into one controller
//! themselves (for instance with a critical section); reading and clearing
//! flags through disjoint tokens needs no such exclusion.

use vstd::prelude::*;
use core::marker::PhantomData;
use crate::flags::InterruptSet;
use crate::owned::OwnedInterruptSet;
use crate::regs::InterruptRegs;
use crate::state;

verus! {

/// CAN interrupt lines. The peripheral provides two interrupt lines to the
/// system interrupt controller; which conditions trigger which line is
/// configured via [`InterruptConfiguration`].
#[derive(Debug, Copy, Clone)]
pub enum InterruptLine {
    /// CAN0 line
    Line0,
    /// CAN1 line
    Line1,
}

impl InterruptLine {
    /// The bit of the line-enable register gating this line.
    pub open spec fn spec_enable_bit(self) -> u32 {
        match self {
            InterruptLine::Line0 => 1,
            InterruptLine::Line1 => 2,
        }
    }
}

/// The register state after routing the interrupts of `mask` to `line`,
/// enabling that line globally and setting the flag-enable bits of `mask`.
/// Bits outside `mask` keep their routing and enablement.
pub open spec fn enable_regs(r: InterruptRegs, mask: u32, line: InterruptLine) -> InterruptRegs {
    InterruptRegs {
        ir: r.ir,
        ils: match line {
            InterruptLine::Line0 => r.ils & !mask,
            InterruptLine::Line1 => r.ils | mask,
        },
        ile: r.ile | line.spec_enable_bit(),
        ie: r.ie | mask,
    }
}

/// The register state after clearing the flag-enable bits of `mask`.
/// Routing and line enablement stay as they are: they are irrelevant while
/// delivery is disabled and are rewritten by any future enable.
pub open spec fn disable_regs(r: InterruptRegs, mask: u32) -> InterruptRegs {
    InterruptRegs { ir: r.ir, ils: r.ils, ile: r.ile, ie: r.ie & !mask }
}

/// Controls enabling and line selection of interrupts.
///
/// Exactly one instance per peripheral may exist; it is produced once, at
/// bring-up, together with the token owning all thirty valid bits.
#[verifier::reject_recursive_types(Id)]
pub struct InterruptConfiguration<Id>(PhantomData<Id>);

impl<Id> InterruptConfiguration<Id> {
    /// Bring-up, to be performed exactly once per peripheral: resets the
    /// line-select register to its power-on default (every condition routed
    /// to line 0) and hands out the controller together with the one token
    /// covering all thirty valid bits, tagged `Disabled`.
    pub fn new(regs: &mut InterruptRegs) -> (r: (
        InterruptConfiguration<Id>,
        OwnedInterruptSet<Id, state::Disabled>,
    ))
        ensures
            final(regs).ils == 0,
            final(regs).ir == old(regs).ir,
            final(regs).ile == old(regs).ile,
            final(regs).ie == old(regs).ie,
            r.1.mask() == 0x3fff_ffff,
            r.1.wf(),
    {
        proof {
            assert(0x3fff_ffffu32 & !0x3fff_ffffu32 == 0) by (bit_vector);
        }
        let v = InterruptConfiguration(PhantomData);
        // Write the reset value: all conditions routed to line 0.
        regs.ils = 0;
        (v, OwnedInterruptSet::new(InterruptSet(0x3fff_ffff)))
    }

    /// Enable the interrupts contained in `interrupt`, or switch them to
    /// line 0. Routing is written before the flag-enable bits, so an owned
    /// bit is never delivering on the wrong line, not even momentarily.
    pub fn enable_line_0<State>(
        &mut self,
        regs: &mut InterruptRegs,
        interrupt: OwnedInterruptSet<Id, State>,
    ) -> (r: OwnedInterruptSet<Id, state::EnabledLine0>)
        ensures
            r.mask() == interrupt.mask(),
            interrupt.wf() ==> r.wf(),
            *final(regs) == enable_regs(*old(regs), interrupt.mask(), InterruptLine::Line0),
            *final(self) == *old(self),
    {
        self.raw_enable(regs, interrupt, InterruptLine::Line0)
    }

    /// Enable the interrupts contained in `interrupt`, or switch them to
    /// line 1. Routing is written before the flag-enable bits, so an owned
    /// bit is never delivering on the wrong line, not even momentarily.
    pub fn enable_line_1<State>(
        &mut self,
        regs: &mut InterruptRegs,
        interrupt: OwnedInterruptSet<Id, State>,
    ) -> (r: OwnedInterruptSet<Id, state::EnabledLine1>)
        ensures
            r.mask() == interrupt.mask(),
            interrupt.wf() ==> r.wf(),
            *final(regs) == enable_regs(*old(regs), interrupt.mask(), InterruptLine::Line1),
            *final(self) == *old(self),
    {
        self.raw_enable(regs, interrupt, InterruptLine::Line1)
    }

    /// Enable the interrupts contained in `interrupt`, or switch them to
    /// the `line` chosen at run time. The returned set is in a dynamic
    /// state, since the static type cannot reflect a runtime choice.
    pub fn enable<State>(
        &mut self,
        regs: &mut InterruptRegs,
        interrupt: OwnedInterruptSet<Id, State>,
        line: InterruptLine,
    ) -> (r: OwnedInterruptSet<Id, state::Dynamic>)
        ensures
            r.mask() == interrupt.mask(),
            interrupt.wf() ==> r.wf(),
            *final(regs) == enable_regs(*old(regs), interrupt.mask(), line),
            *final(self) == *old(self),
    {
        match line {
            InterruptLine::Line0 => self.enable_line_0(regs, interrupt).into_dynamic(),
            InterruptLine::Line1 => self.enable_line_1(regs, interrupt).into_dynamic(),
        }
    }

    /// Disable the interrupts contained in `interrupt`: their flag-enable
    /// bits are cleared, masked to the owned bits. Line routing is left
    /// alone — it is irrelevant while delivery is disabled.
    pub fn disable<State>(
        &mut self,
        regs: &mut InterruptRegs,
        interrupt: OwnedInterruptSet<Id, State>,
    ) -> (r: OwnedInterruptSet<Id, state::Disabled>)
        ensures
            r.mask() == interrupt.mask(),
            interrupt.wf() ==> r.wf(),
            *final(regs) == disable_regs(*old(regs), interrupt.mask()),
            *final(self) == *old(self),
    {
        let interrupt = interrupt.convert::<state::Dynamic>();
        self.set_enabled(regs, &interrupt, false);
        interrupt.convert()
    }

    /// Routes, enables the line and sets the flag-enable bits; the caller
    /// re-tags the result, so the chosen `Out` state must match `line`.
    fn raw_enable<In, Out: state::MaybeEnabled>(
        &mut self,
        regs: &mut InterruptRegs,
        interrupt: OwnedInterruptSet<Id, In>,
        line: InterruptLine,
    ) -> (r: OwnedInterruptSet<Id, Out>)
        ensures
            r.mask() == interrupt.mask(),
            interrupt.wf() ==> r.wf(),
            *final(regs) == enable_regs(*old(regs), interrupt.mask(), line),
            *final(self) == *old(self),
    {
        let interrupt = interrupt.convert::<state::Dynamic>();
        self.set_line(regs, &interrupt, line);
        self.set_enabled(regs, &interrupt, true);
        interrupt.convert()
    }

    /// Set the interrupt line that will trigger for the owned interrupts,
    /// enabling that line globally first. Routing of other bits stays.
    fn set_line(
        &mut self,
        regs: &mut InterruptRegs,
        interrupts: &OwnedInterruptSet<Id, state::Dynamic>,
        line: InterruptLine,
    )
        ensures
            final(regs).ils == match line {
                InterruptLine::Line0 => old(regs).ils & !interrupts.mask(),
                InterruptLine::Line1 => old(regs).ils | interrupts.mask(),
            },
            final(regs).ile == old(regs).ile | line.spec_enable_bit(),
            final(regs).ir == old(regs).ir,
            final(regs).ie == old(regs).ie,
            *final(self) == *old(self),
    {
        self.enable_line(regs, line);
        let mask = interrupts.interrupt_set().0;
        regs.ils = match line {
            InterruptLine::Line0 => regs.ils & !mask,
            InterruptLine::Line1 => regs.ils | mask,
        };
    }

    /// Globally enable delivery on `line`; the other line is untouched.
    fn enable_line(&mut self, regs: &mut InterruptRegs, line: InterruptLine)
        ensures
            final(regs).ile == old(regs).ile | line.spec_enable_bit(),
            final(regs).ir == old(regs).ir,
            final(regs).ils == old(regs).ils,
            final(regs).ie == old(regs).ie,
            *final(self) == *old(self),
    {
        regs.ile = match line {
            InterruptLine::Line0 => regs.ile | 0x1,
            InterruptLine::Line1 => regs.ile | 0x2,
        };
    }

    /// Set or clear the flag-enable bits of the owned interrupts; bits of
    /// other tokens keep their enablement.
    fn set_enabled(
        &mut self,
        regs: &mut InterruptRegs,
        interrupts: &OwnedInterruptSet<Id, state::Dynamic>,
        enabled: bool,
    )
        ensures
            final(regs).ie == if enabled {
                old(regs).ie | interrupts.mask()
            } else {
                old(regs).ie & !interrupts.mask()
            },
            final(regs).ir == old(regs).ir,
            final(regs).ils == old(regs).ils,
            final(regs).ile == old(regs).ile,
            *final(self) == *old(self),
    {
        let mask = interrupts.interrupt_set().0;
        regs.ie = if enabled { regs.ie | mask } else { regs.ie & !mask };
    }
}

/// Re-enabling the same bits on the other line keeps their flag-enable bits
/// set throughout — there is no window in which they are disabled — and
/// ends with every one of them routed to line 1.
pub proof fn lemma_switch_line_keeps_enabled(r: InterruptRegs, mask: u32)
    ensures
        enable_regs(r, mask, InterruptLine::Line0).ie & mask == mask,
        enable_regs(enable_regs(r, mask, InterruptLine::Line0), mask, InterruptLine::Line1).ie
            & mask == mask,
        enable_regs(enable_regs(r, mask, InterruptLine::Line0), mask, InterruptLine::Line1).ils
            & mask == mask,
{
    let e0 = r.ie;
    let s0 = r.ils;
    assert((e0 | mask) & mask == mask) by (bit_vector);
    assert(((e0 | mask) | mask) & mask == mask) by (bit_vector);
    assert(((s0 & !mask) | mask) & mask == mask) by (bit_vector);
}

/// Disabling one token never changes the pending flags, and a flag read
/// through a token disjoint from it can never expose the disabled token's
/// bits, whatever their hardware pending state.
pub proof fn lemma_disable_isolated(r: InterruptRegs, a: u32, b: u32)
    requires
        a & b == 0,
    ensures
        disable_regs(r, a).ir == r.ir,
        disable_regs(r, a).ir & b & a == 0,
{
    let x = r.ir;
    assert(a & b == 0 ==> x & b & a == 0) by (bit_vector);
}

} // verus!
