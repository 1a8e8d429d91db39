//! The audio unit's 64 KiB of addressable memory, as the chip reads and writes it:
//! sample directory and data, and the echo delay line.

use vstd::prelude::*;

verus! {

/// The size of the address space.
pub const MEMORY_SIZE: usize = 0x10000;

pub struct Memory {
    pub bytes: Vec<u8>,
}

impl Memory {
    pub open spec fn wf(&self) -> bool {
        self.bytes@.len() == MEMORY_SIZE
    }

    /// The byte at an address, which wraps around at 64 KiB.
    pub open spec fn byte(&self, address: int) -> u8 {
        self.bytes@[address % 0x10000]
    }

    /// Zero-filled memory.
    pub fn new() -> (r: Memory)
        ensures
            r.wf(),
            forall|a: int| 0 <= a < MEMORY_SIZE ==> #[trigger] r.bytes@[a] == 0,
    {
        Memory { bytes: vec![0u8; MEMORY_SIZE] }
    }

    /// Memory holding the given image, which must be exactly 64 KiB long.
    pub fn from_bytes(bytes: Vec<u8>) -> (r: Option<Memory>)
        ensures
            bytes@.len() == MEMORY_SIZE <==> r is Some,
            r is Some ==> r->Some_0.bytes@ == bytes@ && r->Some_0.wf(),
    {
        if bytes.len() == MEMORY_SIZE {
            Some(Memory { bytes })
        } else {
            None
        }
    }

    pub fn read_u8(&self, address: u32) -> (r: u8)
        requires
            self.wf(),
        ensures
            r == self.byte(address as int),
    {
        self.bytes[(address % 0x10000) as usize]
    }

    pub fn write_u8(&mut self, address: u32, value: u8)
        requires
            old(self).wf(),
        ensures
            final(self).wf(),
            final(self).bytes@ == old(self).bytes@.update(address as int % 0x10000, value),
    {
        self.bytes.set((address % 0x10000) as usize, value);
    }
}

} // verus!
