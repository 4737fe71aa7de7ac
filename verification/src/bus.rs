//! The bus wires the processor to its memory. It owns 2 KB of physical RAM
//! and decodes the 16-bit logical address space into three regions:
//!
//! - 0x0000 - 0x1FFF: the RAM window. Only the low 11 bits select a physical
//!   byte, so four consecutive 2 KB windows alias the same array.
//! - 0x2000 - 0x3FFF: the register block of the picture unit. Unimplemented:
//!   the engine reports touching it as a fault rather than acting silently.
//! - everything above: undecoded. Reads return zero and writes are discarded,
//!   never fatally; any diagnostic is left to the embedding application.

use crate::rom::Rom;
use vstd::prelude::*;

verus! {

/// Bytes of physical RAM behind the mirrored window.
pub const RAM_SIZE: usize = 2048;

/// Whether an address falls inside the mirrored RAM window.
pub open spec fn in_ram_window(addr: u16) -> bool {
    addr < 0x2000
}

/// Whether an address falls inside the unimplemented peripheral-register
/// window.
pub open spec fn in_peripheral_window(addr: u16) -> bool {
    0x2000 <= addr < 0x4000
}

/// The physical byte a RAM-window address selects: its low 11 bits.
pub open spec fn ram_index(addr: u16) -> int {
    addr as int % 0x800
}

/// The byte a read of a non-peripheral address yields: the selected physical
/// byte inside the RAM window, zero anywhere else.
pub open spec fn bus_byte(ram: Seq<u8>, addr: u16) -> u8 {
    if in_ram_window(addr) {
        ram[ram_index(addr)]
    } else {
        0
    }
}

/// The physical RAM after a write to a non-peripheral address: the selected
/// byte is replaced inside the RAM window, nothing moves anywhere else.
pub open spec fn bus_written(ram: Seq<u8>, addr: u16, data: u8) -> Seq<u8> {
    if in_ram_window(addr) {
        ram.update(ram_index(addr), data)
    } else {
        ram
    }
}

/// The bus: the physical RAM and the cartridge plugged into it.
pub struct Bus {
    cpu_vram: Vec<u8>,
    /// The cartridge image. The bus keeps it for the embedding application;
    /// decoding cartridge space is not wired up.
    pub rom: Rom,
}

impl View for Bus {
    type V = Seq<u8>;

    /// A bus is viewed as its physical RAM.
    closed spec fn view(&self) -> Seq<u8> {
        self.cpu_vram@
    }
}

impl Bus {
    /// The physical RAM always spans exactly `RAM_SIZE` bytes.
    pub open spec fn wf(&self) -> bool {
        self@.len() == RAM_SIZE
    }

    /// A fresh bus: RAM all zeroes, the given cartridge plugged in.
    pub fn new(rom: Rom) -> (bus: Bus)
        ensures
            bus.wf(),
            bus@ == Seq::new(RAM_SIZE as nat, |i: int| 0u8),
    {
        let cpu_vram = vec![0u8; RAM_SIZE];
        proof {
            assert(cpu_vram@ =~= Seq::new(RAM_SIZE as nat, |i: int| 0u8));
        }
        Bus { cpu_vram, rom }
    }

    /// Reads one byte. The peripheral window is excluded here; the engine
    /// turns an access to it into a reported fault before reaching the bus.
    pub fn read_mem_u8(&self, addr: u16) -> (v: u8)
        requires
            self.wf(),
            !in_peripheral_window(addr),
        ensures
            v == bus_byte(self@, addr),
    {
        if addr < 0x2000 {
            self.cpu_vram[(addr % 0x800) as usize]
        } else {
            0
        }
    }

    /// Writes one byte: into physical RAM inside the RAM window, discarded in
    /// the undecoded region. The peripheral window is excluded as in reads.
    pub fn write_mem_u8(&mut self, addr: u16, data: u8)
        requires
            old(self).wf(),
            !in_peripheral_window(addr),
        ensures
            final(self).wf(),
            final(self)@ == bus_written(old(self)@, addr, data),
    {
        if addr < 0x2000 {
            self.cpu_vram.set((addr % 0x800) as usize, data);
        }
    }
}

/// Two RAM-window addresses with the same low 11 bits are aliases: a step of
/// 0x800 lands on the same physical byte.
pub proof fn lemma_mirror_alias_step(addr: u16)
    requires
        addr + 0x800 < 0x2000,
    ensures
        ram_index((addr + 0x800) as u16) == ram_index(addr),
{
    assert((addr as int + 0x800) % 0x800 == addr as int % 0x800) by (nonlinear_arith);
}

/// Round trip through the mirrored window: after a write of `x` at `waddr`, a
/// read back through `raddr` yields `x` for `raddr == waddr` and for each of
/// its three aliases, that is for every RAM-window address selecting the same
/// physical byte.
pub proof fn lemma_ram_mirror_round_trip(ram: Seq<u8>, waddr: u16, raddr: u16, x: u8)
    requires
        ram.len() == RAM_SIZE,
        in_ram_window(waddr),
        in_ram_window(raddr),
        ram_index(raddr) == ram_index(waddr),
    ensures
        bus_byte(bus_written(ram, waddr, x), raddr) == x,
{
}

} // verus!
