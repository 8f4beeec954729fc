//! The peripheral lifecycle, encoded in the type system.
//!
//! A peripheral handle is parameterized by a marker state, [`Disabled`] or
//! [`Enabled`]. The state tag is erased at compile time — a handle occupies no
//! storage — yet it decides which operations exist: register proxies for a
//! peripheral are handed out only by methods of the `Enabled` handle, so no
//! code path through this interface can reach a peripheral's registers before
//! its Disabled-to-Enabled transition has happened.
//!
//! Both transitions take the clock controller by mutable borrow for their
//! duration (it is never stored): enabling a peripheral is an operation on the
//! clock-gating register, physically separate from the peripheral's own
//! registers. Neither transition can fail — each is an unconditional register
//! write.
//!
//! Proxies obtained while enabled remain usable as values after `disable`;
//! dereferencing them then touches an unclocked peripheral and is a caller
//! error, documented rather than checked, to keep the abstraction zero-cost.

use vstd::prelude::*;
use core::marker::PhantomData;
use crate::bits::{bit_set, with_bit_set, with_bit_cleared, lemma_set_bit_sets,
    lemma_clear_bit_clears, lemma_set_bit_preserves_others, lemma_clear_bit_preserves_others,
    lemma_set_then_clear_restores};
use crate::clock::ClockController;
use crate::reg_proxy::{Reg, RegProxy};

verus! {

/// A lifecycle state marker.
pub trait Lifecycle {
    /// Whether a handle in this state grants register access.
    spec fn grants_access() -> bool;
}

/// The state of a peripheral whose clock gate is closed. A handle in this
/// state grants no register access.
pub struct Disabled;

impl Lifecycle for Disabled {
    open spec fn grants_access() -> bool {
        false
    }
}

/// The state of a peripheral whose clock gate has been opened by
/// [`Peripheral::enable`]. Only a handle in this state hands out register
/// proxies.
pub struct Enabled;

impl Lifecycle for Enabled {
    open spec fn grants_access() -> bool {
        true
    }
}

/// A clock-gated peripheral: the compile-time description tying a peripheral
/// marker type to its clock-enable bit and to the register binding of its
/// control register.
pub trait ClockGated {
    /// The register binding for the peripheral's control register.
    type Ctrl: Reg;

    /// The peripheral's bit index in the clock-gating register.
    spec fn clock_bit_spec() -> u32;

    /// Every clock-enable bit lies within the 32-bit gating register.
    proof fn clock_bit_in_range()
        ensures
            Self::clock_bit_spec() < 32,
    ;

    /// Compute the peripheral's bit index in the clock-gating register.
    fn clock_bit() -> (b: u32)
        ensures
            b == Self::clock_bit_spec(),
    ;
}

/// A handle to the peripheral `P`, in lifecycle state `S`.
///
/// Exactly one handle per physical peripheral exists at any time: handles are
/// created only by the one-time peripheral-set acquisition and are consumed by
/// each transition. The handle stores nothing; both tags are erased at compile
/// time.
pub struct Peripheral<P: ClockGated, S: Lifecycle> {
    _periph: PhantomData<P>,
    _state: PhantomData<S>,
}

impl<P: ClockGated, S: Lifecycle> Peripheral<P, S> {
    /// Whether this handle's lifecycle state grants register access.
    pub open spec fn is_enabled(self) -> bool {
        S::grants_access()
    }
}

impl<P: ClockGated> Peripheral<P, Disabled> {
    /// The handle as the one-time acquisition creates it: disabled, granting
    /// no register access.
    pub(crate) fn at_boot() -> (p: Peripheral<P, Disabled>)
        ensures
            !p.is_enabled(),
    {
        Peripheral { _periph: PhantomData, _state: PhantomData }
    }

    /// Open the peripheral's clock gate and hand back the enabled handle.
    ///
    /// The transition consumes the disabled handle and cannot fail: it is an
    /// unconditional write of one bit of the clock-gating register, which
    /// leaves every other gate as it was.
    pub fn enable(self, clock: &mut ClockController) -> (p: Peripheral<P, Enabled>)
        ensures
            final(clock).bits() == with_bit_set(old(clock).bits(), P::clock_bit_spec()),
            bit_set(final(clock).bits(), P::clock_bit_spec()),
            forall|other: u32|
                other < 32 && other != P::clock_bit_spec() ==> bit_set(
                    final(clock).bits(),
                    other,
                ) == bit_set(old(clock).bits(), other),
            p.is_enabled(),
    {
        proof {
            P::clock_bit_in_range();
            lemma_set_bit_sets(old(clock).bits(), P::clock_bit_spec());
            assert forall|other: u32|
                other < 32 && other != P::clock_bit_spec() implies bit_set(
                with_bit_set(old(clock).bits(), P::clock_bit_spec()),
                other,
            ) == bit_set(old(clock).bits(), other) by {
                lemma_set_bit_preserves_others(old(clock).bits(), P::clock_bit_spec(), other);
            }
        }
        let b = P::clock_bit();
        clock.open_gate(b);
        Peripheral { _periph: PhantomData, _state: PhantomData }
    }
}

impl<P: ClockGated> Peripheral<P, Enabled> {
    /// Close the peripheral's clock gate and hand back the disabled handle.
    ///
    /// Symmetric to [`Peripheral::enable`]: an unconditional clear of the same
    /// bit, leaving every other gate as it was. Register proxies obtained
    /// while enabled remain constructible as values afterward; dereferencing
    /// them is then a caller error (see the module documentation).
    pub fn disable(self, clock: &mut ClockController) -> (p: Peripheral<P, Disabled>)
        ensures
            final(clock).bits() == with_bit_cleared(old(clock).bits(), P::clock_bit_spec()),
            !bit_set(final(clock).bits(), P::clock_bit_spec()),
            forall|other: u32|
                other < 32 && other != P::clock_bit_spec() ==> bit_set(
                    final(clock).bits(),
                    other,
                ) == bit_set(old(clock).bits(), other),
            !p.is_enabled(),
    {
        proof {
            P::clock_bit_in_range();
            lemma_clear_bit_clears(old(clock).bits(), P::clock_bit_spec());
            assert forall|other: u32|
                other < 32 && other != P::clock_bit_spec() implies bit_set(
                with_bit_cleared(old(clock).bits(), P::clock_bit_spec()),
                other,
            ) == bit_set(old(clock).bits(), other) by {
                lemma_clear_bit_preserves_others(old(clock).bits(), P::clock_bit_spec(), other);
            }
        }
        let b = P::clock_bit();
        clock.close_gate(b);
        Peripheral { _periph: PhantomData, _state: PhantomData }
    }

    /// A register proxy for the peripheral's control register.
    ///
    /// This, together with [`Peripheral::release`], is the only way the
    /// peripheral interface hands out a proxy — and both exist only on an
    /// enabled handle.
    pub fn ctrl(&self) -> (proxy: RegProxy<P::Ctrl>)
        ensures
            proxy.addr_of() == <P::Ctrl as Reg>::addr_spec(),
    {
        RegProxy::new()
    }

    /// Decompose the enabled handle into the raw proxy for its control
    /// register, transferring all responsibility for lifecycle correctness to
    /// the caller. After release the typestate wrapper no longer exists.
    pub fn release(self) -> (proxy: RegProxy<P::Ctrl>)
        ensures
            proxy.addr_of() == <P::Ctrl as Reg>::addr_spec(),
    {
        RegProxy::new()
    }
}

/// A freshly acquired peripheral handle is in the Disabled state and grants
/// no register access.
pub proof fn lemma_fresh_handle_grants_no_access<P: ClockGated>(p: Peripheral<P, Disabled>)
    ensures
        !p.is_enabled(),
{
}

/// Transition round-trip: `enable` turns a gating word `w` into
/// `with_bit_set(w, b)`, and an immediately following `disable` turns that
/// into `with_bit_cleared(with_bit_set(w, b), b)` — which is `w` again,
/// because the clock-enable bit of a peripheral still holding a Disabled
/// handle was clear beforehand. The clock-gating register is left in its
/// original, pre-enable value.
pub proof fn lemma_enable_then_disable_restores_clock<P: ClockGated>(w: u32)
    requires
        !bit_set(w, P::clock_bit_spec()),
    ensures
        with_bit_cleared(with_bit_set(w, P::clock_bit_spec()), P::clock_bit_spec()) == w,
{
    P::clock_bit_in_range();
    lemma_set_then_clear_restores(w, P::clock_bit_spec());
}

} // verus!
