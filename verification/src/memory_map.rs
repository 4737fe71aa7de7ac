//! A flat, unmirrored memory backend over the processor's full 16-bit
//! address space, with 8-bit accesses and little-endian 16-bit accesses
//! built from two 8-bit ones. Every address holds a byte: single-byte reads
//! and writes have no failure mode. Only the 16-bit forms exclude the very
//! last address, where no second byte follows.
//!
//! The first 256-byte page (0x0000 - 0x00FF) is the zero page and the second
//! page (0x0100 - 0x01FF) is the system stack; this backend itself treats
//! every address alike.

use vstd::prelude::*;

verus! {

/// How many bytes the backing store holds: one per 16-bit address.
pub const MEMORY_SIZE: usize = 0x10000;

/// The value of a little-endian 16-bit read at `loc`: the byte at `loc` is
/// the low half, the byte at `loc + 1` the high half.
pub open spec fn word_at(memory: Seq<u8>, loc: u16) -> u16 {
    (memory[loc as int] + 256 * memory[loc as int + 1]) as u16
}

/// A flat memory: one byte per address, no aliasing.
pub struct MemoryMap {
    pub memory: Vec<u8>,
}

impl MemoryMap {
    /// The backing store covers the full address range.
    pub open spec fn wf(&self) -> bool {
        self.memory.len() == MEMORY_SIZE
    }

    /// A fresh memory, all zeroes.
    pub fn new() -> (m: MemoryMap)
        ensures
            m.wf(),
            m.memory@ == Seq::new(MEMORY_SIZE as nat, |i: int| 0u8),
    {
        let memory = vec![0u8; MEMORY_SIZE];
        proof {
            assert(memory@ =~= Seq::new(MEMORY_SIZE as nat, |i: int| 0u8));
        }
        MemoryMap { memory }
    }

    /// The byte stored at `loc`; defined for every address.
    pub fn read_mem_u8(&self, loc: u16) -> (v: u8)
        requires
            self.wf(),
        ensures
            v == self.memory[loc as int],
    {
        self.memory[loc as usize]
    }

    /// Stores one byte at `loc` and changes nothing else; defined for every
    /// address.
    pub fn write_mem_u8(&mut self, loc: u16, data: u8)
        requires
            old(self).wf(),
        ensures
            final(self).wf(),
            final(self).memory@ == old(self).memory@.update(loc as int, data),
    {
        self.memory.set(loc as usize, data);
    }

    /// The little-endian 16-bit value stored at `loc` and `loc + 1`. At the
    /// very last address no second byte follows.
    pub fn read_mem_u16(&self, loc: u16) -> (v: u16)
        requires
            self.wf(),
            loc < 0xFFFF,
        ensures
            v == word_at(self.memory@, loc),
    {
        let lo = self.read_mem_u8(loc);
        let hi = self.read_mem_u8(loc + 1);
        lo as u16 + (hi as u16) * 256
    }

    /// Stores a 16-bit value little-endian: the low byte at `loc`, the high
    /// byte at `loc + 1`. At the very last address no second byte follows.
    pub fn write_mem_u16(&mut self, loc: u16, data: u16)
        requires
            old(self).wf(),
            loc < 0xFFFF,
        ensures
            final(self).wf(),
            final(self).memory@ == old(self).memory@.update(loc as int, (data % 256) as u8).update(
                loc as int + 1,
                (data / 256) as u8,
            ),
            word_at(final(self).memory@, loc) == data,
    {
        let hi = (data / 256) as u8;
        let lo = (data % 256) as u8;
        self.write_mem_u8(loc, lo);
        self.write_mem_u8(loc + 1, hi);
    }
}

} // verus!
