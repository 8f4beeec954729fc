//! Makes registers ownable and movable.
//!
//! A vendor register map only ever hands out shared references into a single
//! statically-located register block. That blocks composition: a driver that
//! wants to give one register to component A and another to component B, each
//! with independent ownership, would have to thread a lifetime through every
//! type that ever touches the peripheral.
//!
//! [`RegProxy`] works around the limitation: a proxy stores nothing at runtime
//! and is tagged at compile time with exactly one register binding. It may be
//! freely moved and owned, and wherever it ends up it resolves to the same
//! fixed bus address, because the address is a property of its type alone.
//! Since a proxy is merely a recipe for computing that address — it holds no
//! reference to shared mutable state — it is freely movable into another
//! execution context, such as an interrupt handler.
//!
//! # Hazard
//!
//! Nothing prevents two proxies from being created for the same binding. Used
//! carelessly, that is a data race at the hardware level: a read-modify-write
//! through one proxy is not atomic with respect to the other. Safe sharing
//! patterns are the caller's responsibility: restrict a shared register to
//! reads, or to registers whose bits are write-1-to-affect so that independent
//! writers cannot corrupt each other's intent.

use vstd::prelude::*;
use crate::mmio::Mmio;
use core::marker::PhantomData;

verus! {

/// A register binding: the compile-time association between a marker type and
/// the fixed bus address of one register.
///
/// The address returned by `addr` must be valid on the device's bus for the
/// whole life of the program; that guarantee is the binding author's, not
/// re-verified by the proxy. If one hardware register is reachable under two
/// generated names, declare exactly one binding for it: the binding, not the
/// generator's output, is the single source of truth for the address.
pub trait Reg {
    /// The bound bus address.
    spec fn addr_spec() -> usize;

    /// Compute the bound bus address.
    fn addr() -> (a: usize)
        ensures
            a == Self::addr_spec(),
    ;
}

/// A proxy object for a register.
///
/// A proxy can be moved and owned, and provides access to the register it
/// proxies from wherever it is. It occupies no storage: the register's address
/// is recovered from the type tag `T` alone, so construction touches no
/// hardware and cannot fail.
pub struct RegProxy<T: Reg> {
    _marker: PhantomData<T>,
}

impl<T: Reg> RegProxy<T> {
    /// The address every proxy for the binding `T` resolves to.
    pub open spec fn addr_of(self) -> usize {
        T::addr_spec()
    }

    /// Create a new proxy object.
    ///
    /// If this method is used to create multiple proxies for the same
    /// register, using those proxies carelessly can result in race conditions;
    /// see the module documentation for the sharing patterns that are safe.
    pub fn new() -> (proxy: Self)
        ensures
            proxy.addr_of() == T::addr_spec(),
    {
        RegProxy { _marker: PhantomData }
    }

    /// Resolve the proxy to its register's bus address.
    pub fn address(&self) -> (a: usize)
        ensures
            a == self.addr_of(),
    {
        T::addr()
    }

    /// Read the proxied register.
    ///
    /// The caller guarantees, as the binding author promised, that the bound
    /// address is valid on `bus`.
    pub fn read(&self, bus: &Mmio) -> (v: u32)
        requires
            self.addr_of() < bus@.len(),
        ensures
            v == bus@[self.addr_of() as int],
    {
        bus.read(T::addr())
    }

    /// Write the proxied register, leaving every other register as it was.
    ///
    /// The caller guarantees, as the binding author promised, that the bound
    /// address is valid on `bus`.
    pub fn write(&self, bus: &mut Mmio, v: u32)
        requires
            self.addr_of() < old(bus)@.len(),
        ensures
            final(bus)@ == old(bus)@.update(self.addr_of() as int, v),
    {
        bus.write(T::addr(), v);
    }
}

/// Opt-in marker for a register binding that is safe to alias.
///
/// Deliberately holding several proxies for one binding is sanctioned only
/// where independent users cannot corrupt each other's intent: a register
/// restricted to reads, or one with write-1-to-affect semantics, where bits
/// written as zero change nothing. The binding author opts into sharing per
/// register by implementing this marker; every other binding keeps the safe
/// default of a single owner, and [`RegProxy::duplicate`] does not exist for
/// it.
pub trait SharedSafe: Reg {

}

impl<T: Reg + SharedSafe> RegProxy<T> {
    /// A second, independently owned proxy for the same shared-safe binding,
    /// resolving to the identical address.
    pub fn duplicate(&self) -> (proxy: RegProxy<T>)
        ensures
            proxy.addr_of() == self.addr_of(),
    {
        RegProxy::new()
    }
}

/// Construction is address-deterministic: two independently constructed
/// proxies for the same binding resolve to the identical bus address.
pub proof fn lemma_proxy_addresses_agree<T: Reg>(a: RegProxy<T>, b: RegProxy<T>)
    ensures
        a.addr_of() == b.addr_of(),
{
}

/// Ownership transfer is address-preserving: whatever value a proxy for the
/// binding `T` is — wherever it was created and however often it has been
/// moved since — it resolves to the binding's address.
pub proof fn lemma_proxy_address_fixed<T: Reg>(proxy: RegProxy<T>)
    ensures
        proxy.addr_of() == T::addr_spec(),
{
}

} // verus!
