//! The memory bus abstraction and a plain 64 KiB RAM implementation.

use vstd::prelude::*;

verus! {

/// Abstract memory interface: a byte-addressed 16-bit space.
///
/// Reads and writes may have side effects: an implementation decides whether
/// a region is backed by plain RAM or dispatched to a memory-mapped device.
/// The model exposes which addresses behave as plain RAM (`plain`) and the
/// bytes those cells hold (`ram`); nothing is promised about a read of a
/// device-mapped address beyond leaving the RAM cells as they were.
pub trait Memory: Sized {
    /// The bytes currently held by the plain RAM cells.
    spec fn ram(&self) -> Seq<u8>;

    /// Whether `address` is backed by plain RAM: a read returns the stored
    /// byte and a write stores the given byte, with no further effect.
    spec fn plain(&self, address: u16) -> bool;

    fn get(&mut self, address: u16) -> (r: u8)
        ensures
            final(self).ram() == old(self).ram(),
            forall|a: u16| final(self).plain(a) == old(self).plain(a),
            old(self).plain(address) ==> r == old(self).ram()[address as int],
    ;

    fn set(&mut self, address: u16, value: u8)
        ensures
            forall|a: u16| final(self).plain(a) == old(self).plain(a),
            final(self).ram() == (if old(self).plain(address) {
                old(self).ram().update(address as int, value)
            } else {
                old(self).ram()
            }),
    ;
}

/// Plain memory implementation with just 64K of RAM.
pub struct PlainMemory {
    state: Vec<u8>,
}

impl PlainMemory {
    /// A fresh 64 KiB RAM, every cell zero.
    pub fn new() -> (r: PlainMemory)
        ensures
            r.ram().len() == 0x10000,
            forall|a: u16| r.plain(a),
            forall|a: u16| r.ram()[a as int] == 0u8,
    {
        let mut state: Vec<u8> = Vec::new();
        while state.len() < 0x10000
            invariant
                state@.len() <= 0x10000,
                forall|i: int| 0 <= i < state@.len() ==> state@[i] == 0u8,
            decreases 0x10000 - state@.len(),
        {
            state.push(0);
        }
        PlainMemory { state }
    }
}

impl Memory for PlainMemory {
    closed spec fn ram(&self) -> Seq<u8> {
        self.state@
    }

    closed spec fn plain(&self, address: u16) -> bool {
        (address as int) < self.state@.len()
    }

    fn get(&mut self, address: u16) -> (r: u8) {
        if (address as usize) < self.state.len() {
            self.state[address as usize]
        } else {
            0
        }
    }

    fn set(&mut self, address: u16, value: u8) {
        if (address as usize) < self.state.len() {
            self.state.set(address as usize, value);
        }
    }
}

} // verus!
