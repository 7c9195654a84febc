//! The interrupt-related registers of one peripheral, as plain values.
//!
//! The hardware holds these four 32-bit registers in its memory-mapped
//! register block. Verified code works on this value type; the surrounding
//! environment is responsible for mirroring it onto the real registers with
//! volatile accesses. In each register, bit positions 0 to 29 correspond
//! one to one to the thirty interrupt conditions; positions 30 and 31 are
//! reserved and are always written as zero because no token ever owns them.

use vstd::prelude::*;

verus! {

/// The interrupt registers of one CAN peripheral.
pub struct InterruptRegs {
    /// Pending flags: bit `n` set means condition `n` is pending. The
    /// hardware clears a bit when a one is written to it (write-one-to-
    /// clear) and leaves bits alone where a zero is written.
    pub ir: u32,
    /// Line select: bit `n` clear routes condition `n` to line 0, set
    /// routes it to line 1.
    pub ils: u32,
    /// Line enable: bit 0 gates delivery on line 0, bit 1 on line 1.
    pub ile: u32,
    /// Flag enable: bit `n` gates whether condition `n` can become pending
    /// and signal its line.
    pub ie: u32,
}

impl InterruptRegs {
    /// The power-on state: nothing pending, everything routed to line 0,
    /// both lines and all conditions disabled.
    pub fn reset() -> (r: InterruptRegs)
        ensures
            r.ir == 0,
            r.ils == 0,
            r.ile == 0,
            r.ie == 0,
    {
        InterruptRegs { ir: 0, ils: 0, ile: 0, ie: 0 }
    }

    /// A store to the pending-flags register, which is write-one-to-clear:
    /// every one bit of `w` clears the matching flag, every zero bit leaves
    /// it unchanged. The other registers are untouched.
    pub(crate) fn write_ir(&mut self, w: u32)
        ensures
            final(self).ir == old(self).ir & !w,
            final(self).ils == old(self).ils,
            final(self).ile == old(self).ile,
            final(self).ie == old(self).ie,
    {
        self.ir = self.ir & !w;
    }
}

} // verus!
