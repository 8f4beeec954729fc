//! The clock/power controller.
//!
//! Enabling a peripheral is physically an operation on the clock-gating
//! register of the system controller, not on the peripheral's own registers.
//! [`ClockController`] owns that gating register; it is a singleton capability
//! handed out once with the peripheral set, and a mutable borrow of it is the
//! witness every lifecycle transition demands. That is what makes transitions
//! auditable: no peripheral can be silently used while unclocked, because the
//! only way to open its clock gate passes through this handle.

use vstd::prelude::*;
use crate::bits::{bit_set, with_bit_set, with_bit_cleared, set_bit, clear_bit, get_bit};

verus! {

/// The singleton handle to the clock-gating register.
///
/// Its abstract state is the 32-bit gating word, one clock-enable bit per
/// peripheral, exposed to contracts through [`ClockController::bits`].
pub struct ClockController {
    gating: u32,
}

impl ClockController {
    /// The current value of the clock-gating register word.
    pub closed spec fn bits(self) -> u32 {
        self.gating
    }

    /// The controller as the reset path hands it over: every clock gate
    /// closed.
    pub(crate) fn at_reset() -> (clock: ClockController)
        ensures
            clock.bits() == 0u32,
    {
        ClockController { gating: 0 }
    }

    /// Open one clock gate, leaving every other gate as it was.
    pub(crate) fn open_gate(&mut self, bit: u32)
        requires
            bit < 32,
        ensures
            final(self).bits() == with_bit_set(old(self).bits(), bit),
    {
        self.gating = set_bit(self.gating, bit);
    }

    /// Close one clock gate, leaving every other gate as it was.
    pub(crate) fn close_gate(&mut self, bit: u32)
        requires
            bit < 32,
        ensures
            final(self).bits() == with_bit_cleared(old(self).bits(), bit),
    {
        self.gating = clear_bit(self.gating, bit);
    }

    /// Whether the clock gate at `bit` is open.
    pub fn gate_open(&self, bit: u32) -> (r: bool)
        requires
            bit < 32,
        ensures
            r == bit_set(self.bits(), bit),
    {
        get_bit(self.gating, bit)
    }

    /// Read back the whole clock-gating register word.
    pub fn read_gating(&self) -> (w: u32)
        ensures
            w == self.bits(),
    {
        self.gating
    }
}

} // verus!
