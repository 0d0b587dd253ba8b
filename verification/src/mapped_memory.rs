//! A 64 KiB address space with the PIA mapped at `0xD010..=0xD013` and
//! plain RAM everywhere else.

use vstd::prelude::*;

use crate::memory::Memory;
use crate::pia::PIAChip;

verus! {

/// RAM with a PIA dispatched over four of its addresses.
pub struct MappedMemory {
    state: Vec<u8>,
    chip: PIAChip,
}

impl MappedMemory {
    /// A fresh 64 KiB space, every RAM cell zero, with `chip` answering for
    /// the PIA register range.
    pub fn new(chip: PIAChip) -> (r: MappedMemory)
        ensures
            r.ram().len() == 0x10000,
            forall|a: u16| r.ram()[a as int] == 0u8,
            forall|a: u16| #[trigger] r.plain(a) <==> !(0xD010 <= a <= 0xD013),
    {
        let mut state: Vec<u8> = Vec::new();
        while state.len() < 0x10000
            invariant
                state@.len() <= 0x10000,
                forall|i: int| 0 <= i < state@.len() ==> state@[i] == 0u8,
            decreases 0x10000 - state@.len(),
        {
            state.push(0);
        }
        MappedMemory { state, chip }
    }
}

impl Memory for MappedMemory {
    closed spec fn ram(&self) -> Seq<u8> {
        self.state@
    }

    closed spec fn plain(&self, address: u16) -> bool {
        !(0xD010 <= address <= 0xD013) && (address as int) < self.state@.len()
    }

    fn get(&mut self, address: u16) -> (r: u8) {
        if 0xD010 <= address && address <= 0xD013 {
            self.chip.read(address)
        } else if (address as usize) < self.state.len() {
            self.state[address as usize]
        } else {
            0
        }
    }

    fn set(&mut self, address: u16, value: u8) {
        if 0xD010 <= address && address <= 0xD013 {
            self.chip.write(address, value);
        } else if (address as usize) < self.state.len() {
            self.state.set(address as usize, value);
        }
    }
}

} // verus!
