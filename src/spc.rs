//! The SPC snapshot layout: a 256-byte header, the 64 KiB of audio memory,
//! then the 128 DSP registers.

use vstd::prelude::*;

verus! {

/// Where the memory image starts.
pub const SPC_RAM_OFFSET: usize = 0x100;

/// Where the register snapshot starts.
pub const SPC_REGS_OFFSET: usize = 0x10100;

/// The number of DSP registers.
pub const REG_LEN: usize = 128;

/// A snapshot's memory image and register file.
pub struct Spc {
    pub ram: Vec<u8>,
    pub regs: Vec<u8>,
}

/// Copies `len` bytes from `offset` on.
fn copy_range(bytes: &Vec<u8>, offset: usize, len: usize) -> (r: Vec<u8>)
    requires
        offset + len <= bytes@.len(),
    ensures
        r@ == bytes@.subrange(offset as int, offset + len),
{
    let total = bytes.len();
    let mut r: Vec<u8> = Vec::new();
    let mut i: usize = 0;
    while i < len
        invariant
            i <= len,
            offset + len <= bytes@.len(),
            total == bytes@.len(),
            r@ == bytes@.subrange(offset as int, offset + i),
        decreases len - i,
    {
        r.push(bytes[offset + i]);
        i = i + 1;
        assert(r@ =~= bytes@.subrange(offset as int, offset + i));
    }
    r
}

impl Spc {
    /// Splits a snapshot file into memory and registers; it must hold both.
    pub fn from_bytes(bytes: &Vec<u8>) -> (r: Option<Spc>)
        ensures
            r is Some <==> bytes@.len() >= SPC_REGS_OFFSET + REG_LEN,
            r is Some ==> r->Some_0.ram@ == bytes@.subrange(0x100, 0x10100)
                && r->Some_0.regs@ == bytes@.subrange(0x10100, 0x10180),
    {
        if bytes.len() < SPC_REGS_OFFSET + REG_LEN {
            return None;
        }
        let ram = copy_range(bytes, SPC_RAM_OFFSET, 0x10000);
        let regs = copy_range(bytes, SPC_REGS_OFFSET, REG_LEN);
        Some(Spc { ram, regs })
    }
}

} // verus!
