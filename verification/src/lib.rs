//! A verified instruction-level emulator for the 6502 processor as wired into
//! the NES: an 8-bit register file, a status register of condition flags, a
//! mirrored memory bus, an opcode table, and a fetch-decode-execute engine
//! whose effect on the machine state is specified instruction by instruction.

pub mod bus;
pub mod cpu;
pub mod memory_map;
pub mod model;
pub mod opcodes;
pub mod processor_status;
pub mod rom;
pub mod screen;

pub use bus::Bus;
pub use cpu::CPU;
pub use memory_map::MemoryMap;
pub use model::EmuError;
pub use opcodes::AddressingMode;
pub use opcodes::OpCode;
pub use rom::Mirroring;
pub use rom::Rom;

pub use processor_status::ProcessorStatus;
pub use processor_status::ProcessorStatusFlags;
