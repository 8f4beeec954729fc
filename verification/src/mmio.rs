//! The memory-mapped register bus.
//!
//! Real hardware backs every register with a fixed memory location whose reads
//! and writes have device side effects and must never be reordered or elided.
//! This crate models that address space explicitly as a word-addressed bus:
//! each 32-bit register occupies one word index, and every access goes through
//! [`Mmio::read`] or [`Mmio::write`], so the order of side effects is exactly
//! the order of the calls in the program text.
//!
//! Validity of an address is a contract delegated to whoever declares a
//! register binding, not re-checked here: `read` and `write` require the
//! address to lie inside the bus, just as a binding author must guarantee that
//! a declared address is valid for the life of the program.

use vstd::prelude::*;

verus! {

/// A word-addressed register address space.
///
/// The view of a bus is the sequence of its register words, one `u32` per
/// address.
pub struct Mmio {
    words: Vec<u32>,
}

impl View for Mmio {
    type V = Seq<u32>;

    closed spec fn view(&self) -> Seq<u32> {
        self.words@
    }
}

impl Mmio {
    /// A bus of `len` registers, all reading as zero — the reset state of the
    /// modeled device.
    pub fn new_zeroed(len: usize) -> (bus: Mmio)
        ensures
            bus@.len() == len,
            forall|a: int| 0 <= a < len ==> bus@[a] == 0u32,
    {
        let mut words: Vec<u32> = Vec::new();
        let mut i: usize = 0;
        while i < len
            invariant
                i <= len,
                words@.len() == i,
                forall|a: int| 0 <= a < i ==> words@[a] == 0u32,
            decreases len - i,
        {
            words.push(0);
            i = i + 1;
        }
        Mmio { words }
    }

    /// The number of addressable register words.
    pub fn len(&self) -> (n: usize)
        ensures
            n == self@.len(),
    {
        self.words.len()
    }

    /// Read the register word at `addr`.
    ///
    /// The caller guarantees that `addr` is a valid bus address, as the author
    /// of the register binding promised when declaring it.
    pub fn read(&self, addr: usize) -> (v: u32)
        requires
            addr < self@.len(),
        ensures
            v == self@[addr as int],
    {
        self.words[addr]
    }

    /// Write the register word at `addr`, leaving every other register as it
    /// was.
    ///
    /// The caller guarantees that `addr` is a valid bus address, as the author
    /// of the register binding promised when declaring it.
    pub fn write(&mut self, addr: usize, v: u32)
        requires
            addr < old(self)@.len(),
        ensures
            final(self)@ == old(self)@.update(addr as int, v),
    {
        self.words.set(addr, v);
    }
}

} // verus!
