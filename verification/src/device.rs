//! A concrete device model: register bindings, the peripheral set, and its
//! one-time acquisition.
//!
//! The vendor register map supplies, per peripheral, a fixed bus address and a
//! clock-enable bit; this module declares those bindings once each. The
//! binding declaration is the single source of truth for a register's
//! address: where a generator maps one physical register under two names,
//! exactly one binding is declared for it and the duplicate accessor is
//! excluded here, at the boundary.
//!
//! The register block itself is a fixed, unmovable resource backing the whole
//! program. It is modeled as a process-wide singleton with a one-time "take"
//! operation, [`Device::take_peripherals`], producing owned, movable handles:
//! the bus, the clock controller, and one Disabled handle per physical
//! peripheral — never a second, aliasing set.

use vstd::prelude::*;
use crate::clock::ClockController;
use crate::mmio::Mmio;
use crate::periph::{ClockGated, Disabled, Enabled, Peripheral};
use crate::reg_proxy::{Reg, RegProxy, SharedSafe};

verus! {

/// Number of word addresses on the modeled device's register bus.
pub const ADDRESS_SPACE_WORDS: usize = 16;

/// Bus address of Timer1's control register.
pub const TIMER1_CTRL_ADDR: usize = 4;

/// Timer1's bit index in the clock-gating register.
pub const TIMER1_CLOCK_BIT: u32 = 5;

/// Bit of Timer1's control register that starts the counter. The hardware
/// latches it, so reading the register back shows it as the running flag.
pub const TIMER1_START_BIT: u32 = 0;

/// Bus address of the GPIO port's control register.
pub const GPIO_CTRL_ADDR: usize = 6;

/// The GPIO port's bit index in the clock-gating register.
pub const GPIO_CLOCK_BIT: u32 = 14;

/// Bus address of the GPIO port's output-set register. A bit written as one
/// drives the pin high; bits written as zero have no effect.
pub const GPIO_OUT_SET_ADDR: usize = 7;

/// The Timer1 peripheral.
pub struct Timer1;

/// The register binding for Timer1's control register.
pub struct Timer1Ctrl;

impl Reg for Timer1Ctrl {
    open spec fn addr_spec() -> usize {
        TIMER1_CTRL_ADDR
    }

    fn addr() -> (a: usize) {
        TIMER1_CTRL_ADDR
    }
}

impl ClockGated for Timer1 {
    type Ctrl = Timer1Ctrl;

    open spec fn clock_bit_spec() -> u32 {
        TIMER1_CLOCK_BIT
    }

    proof fn clock_bit_in_range() {
    }

    fn clock_bit() -> (b: u32) {
        TIMER1_CLOCK_BIT
    }
}

/// The GPIO port peripheral.
pub struct Gpio;

/// The register binding for the GPIO port's control register.
pub struct GpioCtrl;

impl Reg for GpioCtrl {
    open spec fn addr_spec() -> usize {
        GPIO_CTRL_ADDR
    }

    fn addr() -> (a: usize) {
        GPIO_CTRL_ADDR
    }
}

impl ClockGated for Gpio {
    type Ctrl = GpioCtrl;

    open spec fn clock_bit_spec() -> u32 {
        GPIO_CLOCK_BIT
    }

    proof fn clock_bit_in_range() {
    }

    fn clock_bit() -> (b: u32) {
        GPIO_CLOCK_BIT
    }
}

/// The register binding for the GPIO port's output-set register.
///
/// The register is write-1-to-set: independent writers cannot corrupt each
/// other's intent, so the binding opts into the shared-safe marker and its
/// proxies may deliberately be duplicated.
pub struct GpioOutSet;

impl Reg for GpioOutSet {
    open spec fn addr_spec() -> usize {
        GPIO_OUT_SET_ADDR
    }

    fn addr() -> (a: usize) {
        GPIO_OUT_SET_ADDR
    }
}

impl SharedSafe for GpioOutSet {

}

impl Peripheral<Gpio, Enabled> {
    /// A register proxy for the port's write-1-to-set output register —
    /// available, like every proxy, only from an enabled handle.
    pub fn out_set(&self) -> (proxy: RegProxy<GpioOutSet>)
        ensures
            proxy.addr_of() == GPIO_OUT_SET_ADDR,
    {
        RegProxy::new()
    }
}

/// Every owned handle of the device, produced once by
/// [`Device::take_peripherals`]: the register bus, the clock controller, and
/// one Disabled handle per physical peripheral.
pub struct PeripheralSet {
    /// The word-addressed register bus all proxies resolve into.
    pub bus: Mmio,
    /// The singleton clock/power controller capability.
    pub clock: ClockController,
    /// The Timer1 handle, initially disabled.
    pub timer1: Peripheral<Timer1, Disabled>,
    /// The GPIO port handle, initially disabled.
    pub gpio: Peripheral<Gpio, Disabled>,
}

impl PeripheralSet {
    /// The reset state of the device: the bus covers the whole modeled
    /// address space, every register reads zero, and every clock gate is
    /// closed.
    pub open spec fn at_reset(self) -> bool {
        &&& self.bus@.len() == ADDRESS_SPACE_WORDS
        &&& forall|a: int| 0 <= a < self.bus@.len() ==> self.bus@[a] == 0u32
        &&& self.clock.bits() == 0u32
    }
}

/// The physical device as the reset path hands it to the program.
///
/// Exactly one `Device` value exists per program run — the reset path creates
/// it before any other code runs — so the take-once flag below makes the
/// peripheral set a process-wide singleton: handles for each physical
/// peripheral are given out once, and never a second, aliasing time.
pub struct Device {
    peripherals_taken: bool,
}

impl Device {
    /// Whether the peripheral set has already been taken.
    pub closed spec fn taken(self) -> bool {
        self.peripherals_taken
    }

    /// The device as it comes out of reset: the peripheral set not yet taken.
    pub fn at_reset() -> (device: Device)
        ensures
            !device.taken(),
    {
        Device { peripherals_taken: false }
    }

    /// The one-time acquisition of the peripheral set.
    ///
    /// The first call yields the set, with every register at its reset value
    /// and every peripheral handle Disabled. Every later call signals that the
    /// set is already taken by returning `None` — never a second, aliasing
    /// set of handles.
    pub fn take_peripherals(&mut self) -> (r: Option<PeripheralSet>)
        ensures
            final(self).taken(),
            r is Some <==> !old(self).taken(),
            r matches Some(ps) ==> ps.at_reset(),
    {
        if self.peripherals_taken {
            None
        } else {
            self.peripherals_taken = true;
            Some(
                PeripheralSet {
                    bus: Mmio::new_zeroed(ADDRESS_SPACE_WORDS),
                    clock: ClockController::at_reset(),
                    timer1: Peripheral::at_boot(),
                    gpio: Peripheral::at_boot(),
                },
            )
        }
    }
}

} // verus!
