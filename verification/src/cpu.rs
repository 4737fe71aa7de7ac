//! The execution engine: the register file and the bus, operand resolution,
//! one instruction handler per mnemonic family, and the fetch-decode-execute
//! loop. Every handler is proved to realize the corresponding effect of the
//! machine model in `model`, and the loop to realize a finite iteration of
//! `step_result`.
//!
//! Data lives little-endian. The stack occupies the fixed page 0x0100-0x01FF
//! and grows downward from 0x01FF; `stack_base` counts the pushed bytes.

use crate::bus::Bus;
use crate::bus::bus_byte;
use crate::bus::bus_written;
use crate::bus::in_peripheral_window;
use crate::model::CpuModel;
use crate::model::EmuError;
use crate::model::PROGRAM_ORIGIN;
use crate::model::addressable;
use crate::model::adc_result;
use crate::model::branch_result;
use crate::model::boot_state;
use crate::model::carry_bit;
use crate::model::instruction_result;
use crate::model::compare_status;
use crate::model::high_byte;
use crate::model::loaded_ram;
use crate::model::low_byte;
use crate::model::operand_byte;
use crate::model::operand_location;
use crate::model::outcome;
use crate::model::popped16;
use crate::model::popped8;
use crate::model::pushed16;
use crate::model::pushed8;
use crate::model::read16;
use crate::model::read8;
use crate::model::reset_result;
use crate::model::run_steps;
use crate::model::step_result;
use crate::model::top16;
use crate::model::top_of_stack;
use crate::model::with_a;
use crate::model::with_x;
use crate::model::with_y;
use crate::model::word;
use crate::model::write8;
use crate::opcodes::AddressingMode;
use crate::opcodes::opcode_lookup;
use crate::opcodes::opcode_mode;
use crate::opcodes::opcode_recognized;
use crate::opcodes::hex_byte_string;
use crate::opcodes::hex_word_string;
use crate::processor_status::ProcessorStatus;
use crate::processor_status::ProcessorStatusFlags;
use crate::processor_status::is_flag_set;
use crate::processor_status::lemma_zn_status;
use vstd::prelude::*;

verus! {

/// Where the stack page ends; the stack grows downward from here.
pub const STACK_TOP: u16 = 0x01FF;

/// The state of the processor.
pub struct CPU {
    /// Address of the next instruction byte.
    pub program_counter: u16,
    /// Base of the descending stack: the top of the fixed stack page. It
    /// never moves; only `stack_base` does.
    pub stack_pointer: u16,
    /// How many bytes have been pushed, modulo 256: the distance subtracted
    /// from the stack base to find the next free byte.
    pub stack_base: u8,
    /// The accumulator, target of the arithmetic instructions.
    pub accumulator: u8,
    /// The X index register.
    pub index_register_x: u8,
    /// The Y index register.
    pub index_register_y: u8,
    /// The condition flags.
    pub processor_status: ProcessorStatus,
    /// The memory bus.
    pub bus: Bus,
}

impl CPU {
    /// The stack base sits at the top of the fixed stack page and the bus
    /// carries its full RAM.
    pub open spec fn wf(&self) -> bool {
        self.stack_pointer == STACK_TOP && self.bus.wf()
    }

    /// The machine-model snapshot of this processor.
    pub open spec fn model(&self) -> CpuModel {
        CpuModel {
            pc: self.program_counter,
            depth: self.stack_base,
            a: self.accumulator,
            x: self.index_register_x,
            y: self.index_register_y,
            status: self.processor_status.0,
            ram: self.bus@,
        }
    }

    /// A fresh processor on the given bus: every register cleared, the stack
    /// empty.
    pub fn new(bus: Bus) -> (cpu: CPU)
        ensures
            cpu == (CPU {
                program_counter: 0u16,
                stack_pointer: STACK_TOP,
                stack_base: 0u8,
                accumulator: 0u8,
                index_register_x: 0u8,
                index_register_y: 0u8,
                processor_status: ProcessorStatus(0u8),
                bus,
            }),
            bus.wf() ==> cpu.wf(),
    {
        CPU {
            program_counter: 0,
            stack_pointer: STACK_TOP,
            stack_base: 0,
            accumulator: 0,
            index_register_x: 0,
            index_register_y: 0,
            processor_status: ProcessorStatus(0),
            bus,
        }
    }

    /// One line with every register and the flag byte, for diagnostics.
    pub fn log_dump_registers_string(&self) -> String {
        let mut line = String::from_str("prgm_ctr: ");
        let pc = hex_word_string(self.program_counter);
        line.append(pc.as_str());
        line.append(" | stk_ptr: ");
        let sp = hex_word_string(self.stack_pointer);
        line.append(sp.as_str());
        line.append(" | acc_reg: ");
        let acc = hex_byte_string(self.accumulator);
        line.append(acc.as_str());
        line.append(" | ind_reg_x: ");
        let x = hex_byte_string(self.index_register_x);
        line.append(x.as_str());
        line.append(" | ind_reg_y: ");
        let y = hex_byte_string(self.index_register_y);
        line.append(y.as_str());
        line.append(" | cpu_state_flags: ");
        let flags = self.processor_status.flags_string();
        line.append(flags.as_str());
        line
    }

    /// Reads one byte through the bus. The peripheral window is excluded by
    /// precondition; the engine's own accesses go through `try_read`, which
    /// turns such an access into a reported fault instead.
    pub fn read_mem_u8(&self, addr: u16) -> (v: u8)
        requires
            self.wf(),
            !in_peripheral_window(addr),
        ensures
            v == bus_byte(self.bus@, addr),
    {
        self.bus.read_mem_u8(addr)
    }

    /// Writes one byte through the bus; peripheral window excluded as above.
    pub fn write_mem_u8(&mut self, addr: u16, data: u8)
        requires
            old(self).wf(),
            !in_peripheral_window(addr),
        ensures
            final(self).wf(),
            final(self).model() == (CpuModel {
                ram: bus_written(old(self).bus@, addr, data),
                ..old(self).model()
            }),
    {
        self.bus.write_mem_u8(addr, data);
    }

    /// Reads a little-endian 16-bit word through the bus: the byte at `pos`
    /// is the low half, the byte at `pos + 1` the high half.
    pub fn read_mem_u16(&self, pos: u16) -> (v: u16)
        requires
            self.wf(),
            pos < 0xFFFF,
            !in_peripheral_window(pos),
            !in_peripheral_window((pos + 1) as u16),
        ensures
            v == word(bus_byte(self.bus@, pos), bus_byte(self.bus@, (pos + 1) as u16)),
            read16(self.bus@, pos) == Ok::<u16, EmuError>(v),
    {
        let lo = self.bus.read_mem_u8(pos);
        let hi = self.bus.read_mem_u8(pos + 1);
        lo as u16 + (hi as u16) * 256
    }

    /// Writes a little-endian 16-bit word through the bus, low byte first.
    pub fn write_mem_u16(&mut self, pos: u16, data: u16)
        requires
            old(self).wf(),
            pos < 0xFFFF,
            !in_peripheral_window(pos),
            !in_peripheral_window((pos + 1) as u16),
        ensures
            final(self).wf(),
            final(self).model() == (CpuModel {
                ram: bus_written(
                    bus_written(old(self).bus@, pos, low_byte(data)),
                    (pos + 1) as u16,
                    high_byte(data),
                ),
                ..old(self).model()
            }),
    {
        let hi = (data / 256) as u8;
        let lo = (data % 256) as u8;
        self.bus.write_mem_u8(pos, lo);
        self.bus.write_mem_u8(pos + 1, hi);
    }

    /// Reads one byte, reporting a touch of the peripheral window as a fault.
    fn try_read(&self, addr: u16) -> (r: Result<u8, EmuError>)
        requires
            self.wf(),
        ensures
            r == read8(self.bus@, addr),
    {
        if 0x2000 <= addr && addr < 0x4000 {
            Err(EmuError::PeripheralUnsupported { addr })
        } else {
            Ok(self.bus.read_mem_u8(addr))
        }
    }

    /// Writes one byte, reporting a touch of the peripheral window as a
    /// fault; on a fault nothing moves.
    fn try_write(&mut self, addr: u16, data: u8) -> (r: Result<(), EmuError>)
        requires
            old(self).wf(),
        ensures
            final(self).wf(),
            match write8(old(self).bus@, addr, data) {
                Ok(ram2) => r is Ok && final(self).model() == (CpuModel {
                    ram: ram2,
                    ..old(self).model()
                }),
                Err(e) => r == Err::<(), EmuError>(e) && *final(self) == *old(self),
            },
    {
        if 0x2000 <= addr && addr < 0x4000 {
            Err(EmuError::PeripheralUnsupported { addr })
        } else {
            self.bus.write_mem_u8(addr, data);
            Ok(())
        }
    }

    /// Reads a little-endian word, reporting the faults `read16` names.
    fn try_read16(&self, pos: u16) -> (r: Result<u16, EmuError>)
        requires
            self.wf(),
        ensures
            r == read16(self.bus@, pos),
    {
        if pos == 0xFFFF {
            return Err(EmuError::AddressOverflow { addr: pos });
        }
        let lo = match self.try_read(pos) {
            Ok(b) => b,
            Err(e) => {
                return Err(e);
            },
        };
        let hi = match self.try_read(pos + 1) {
            Ok(b) => b,
            Err(e) => {
                return Err(e);
            },
        };
        Ok(lo as u16 + (hi as u16) * 256)
    }

    /// Pushes one byte: it lands `stack_base` bytes below the page top, and
    /// the stack deepens by one.
    pub fn push_stack(&mut self, data: u8)
        requires
            old(self).wf(),
        ensures
            final(self).wf(),
            final(self).model() == pushed8(old(self).model(), data),
    {
        let addr = self.stack_pointer - self.stack_base as u16;
        self.bus.write_mem_u8(addr, data);
        self.stack_base = self.stack_base.wrapping_add(1);
        proof {
            assert(self.model() =~= pushed8(old(self).model(), data));
        }
    }

    /// Pops one byte: the stack shallows by one, then the byte now just
    /// above the free slot — the most recently pushed one — is read.
    pub fn pop_stack(&mut self) -> (v: u8)
        requires
            old(self).wf(),
        ensures
            final(self).wf(),
            final(self).model() == popped8(old(self).model()),
            v == top_of_stack(old(self).model()),
    {
        self.stack_base = self.stack_base.wrapping_sub(1);
        let v = self.bus.read_mem_u8(self.stack_pointer - self.stack_base as u16);
        proof {
            assert(self.model() =~= popped8(old(self).model()));
        }
        v
    }

    /// Pushes a 16-bit value, high byte first.
    pub fn push_stack_u16(&mut self, data: u16)
        requires
            old(self).wf(),
        ensures
            final(self).wf(),
            final(self).model() == pushed16(old(self).model(), data),
    {
        let hi = (data / 256) as u8;
        let lo = (data % 256) as u8;
        self.push_stack(hi);
        self.push_stack(lo);
    }

    /// Pops a 16-bit value, low byte first.
    pub fn read_stack_u16(&mut self) -> (v: u16)
        requires
            old(self).wf(),
        ensures
            final(self).wf(),
            final(self).model() == popped16(old(self).model()),
            v == top16(old(self).model()),
    {
        let lo = self.pop_stack();
        let hi = self.pop_stack();
        lo as u16 + (hi as u16) * 256
    }

    /// Stores into the accumulator and refreshes Zero and Negative from the
    /// stored value: Zero holds exactly when the value is zero, Negative
    /// exactly when its bit 7 is one.
    pub fn set_register_a(&mut self, data: u8)
        requires
            old(self).wf(),
        ensures
            final(self).wf(),
            final(self).model() == with_a(old(self).model(), data),
            is_flag_set(final(self).processor_status.0, ProcessorStatusFlags::ZeroFlag) <==> data
                == 0,
            is_flag_set(final(self).processor_status.0, ProcessorStatusFlags::Negative) <==> data
                >= 0x80,
    {
        self.accumulator = data;
        self.processor_status.update_zero_and_negative_flags(data);
        proof {
            assert(self.model() =~= with_a(old(self).model(), data));
        }
    }

    /// Stores into the X register, refreshing Zero and Negative the same way.
    pub fn set_register_x(&mut self, data: u8)
        requires
            old(self).wf(),
        ensures
            final(self).wf(),
            final(self).model() == with_x(old(self).model(), data),
            is_flag_set(final(self).processor_status.0, ProcessorStatusFlags::ZeroFlag) <==> data
                == 0,
            is_flag_set(final(self).processor_status.0, ProcessorStatusFlags::Negative) <==> data
                >= 0x80,
    {
        self.index_register_x = data;
        self.processor_status.update_zero_and_negative_flags(data);
        proof {
            assert(self.model() =~= with_x(old(self).model(), data));
        }
    }

    /// Stores into the Y register, refreshing Zero and Negative the same way.
    pub fn set_register_y(&mut self, data: u8)
        requires
            old(self).wf(),
        ensures
            final(self).wf(),
            final(self).model() == with_y(old(self).model(), data),
            is_flag_set(final(self).processor_status.0, ProcessorStatusFlags::ZeroFlag) <==> data
                == 0,
            is_flag_set(final(self).processor_status.0, ProcessorStatusFlags::Negative) <==> data
                >= 0x80,
    {
        self.index_register_y = data;
        self.processor_status.update_zero_and_negative_flags(data);
        proof {
            assert(self.model() =~= with_y(old(self).model(), data));
        }
    }

    /// Add-with-carry into the accumulator: accumulator, operand and the
    /// incoming carry are summed widened; Carry reports a sum above 0xFF,
    /// Overflow reports two same-signed summands producing a result of the
    /// other sign, and the 8-bit sum goes through the accumulator setter.
    pub fn add_to_register_a(&mut self, data: u8)
        requires
            old(self).wf(),
        ensures
            final(self).wf(),
            final(self).model() == adc_result(old(self).model(), data),
            final(self).accumulator
                == (old(self).accumulator + data + carry_bit(old(self).processor_status.0)) % 256,
            is_flag_set(final(self).processor_status.0, ProcessorStatusFlags::CarryFlag)
                <==> (old(self).accumulator + data + carry_bit(old(self).processor_status.0)
                > 0xFF),
            is_flag_set(final(self).processor_status.0, ProcessorStatusFlags::Overflow)
                <==> (((data >= 0x80) == (old(self).accumulator >= 0x80))
                && ((final(self).accumulator >= 0x80) != (old(self).accumulator >= 0x80))),
            is_flag_set(final(self).processor_status.0, ProcessorStatusFlags::ZeroFlag)
                <==> (final(self).accumulator == 0),
            is_flag_set(final(self).processor_status.0, ProcessorStatusFlags::Negative)
                <==> (final(self).accumulator >= 0x80),
    {
        let carry_in: u16 = if self.processor_status.has_flag_set(
            ProcessorStatusFlags::CarryFlag,
        ) {
            1
        } else {
            0
        };
        let total: u16 = self.accumulator as u16 + data as u16 + carry_in;
        let carry = total > 0xFF;
        self.processor_status.set_flag(ProcessorStatusFlags::CarryFlag, carry);

        let result = (total % 256) as u8;
        let same_sign = (data >= 0x80) == (self.accumulator >= 0x80);
        let sign_flipped = (result >= 0x80) != (self.accumulator >= 0x80);
        self.processor_status.set_flag(
            ProcessorStatusFlags::Overflow,
            same_sign && sign_flipped,
        );
        proof {
            lemma_zn_status(self.processor_status.0, result);
        }
        self.set_register_a(result);
        proof {
            assert(self.model() =~= adc_result(old(self).model(), data));
        }
    }

    /// Resolves the operand's memory location for an addressable mode,
    /// reading any operand bytes it needs through the bus at the program
    /// counter. It never moves the program counter; the run loop advances it
    /// by the instruction length instead. Asking for the accumulator or
    /// operand-free form here is a programming error, excluded by
    /// precondition.
    pub fn get_operand_address(&self, mode: &AddressingMode) -> (r: Result<u16, EmuError>)
        requires
            self.wf(),
            addressable(*mode),
        ensures
            r == operand_location(self.model(), *mode),
    {
        match mode {
            AddressingMode::Immediate => Ok(self.program_counter),
            AddressingMode::Relative => Ok(self.program_counter),
            AddressingMode::ZeroPage => match self.try_read(self.program_counter) {
                Ok(b) => Ok(b as u16),
                Err(e) => Err(e),
            },
            AddressingMode::ZeroPageX => match self.try_read(self.program_counter) {
                Ok(b) => Ok(b.wrapping_add(self.index_register_x) as u16),
                Err(e) => Err(e),
            },
            AddressingMode::ZeroPageY => match self.try_read(self.program_counter) {
                Ok(b) => Ok(b.wrapping_add(self.index_register_y) as u16),
                Err(e) => Err(e),
            },
            AddressingMode::Absolute => self.try_read16(self.program_counter),
            AddressingMode::AbsoluteX => match self.try_read16(self.program_counter) {
                Ok(w) => Ok(w.wrapping_add(self.index_register_x as u16)),
                Err(e) => Err(e),
            },
            AddressingMode::AbsoluteY => match self.try_read16(self.program_counter) {
                Ok(w) => Ok(w.wrapping_add(self.index_register_y as u16)),
                Err(e) => Err(e),
            },
            AddressingMode::Indirect => {
                let ptr = match self.try_read16(self.program_counter) {
                    Ok(w) => w,
                    Err(e) => {
                        return Err(e);
                    },
                };
                // The hardware bug: a pointer ending in 0xFF fetches the
                // target's high byte from the start of its own page.
                if ptr % 256 == 0xFF {
                    let lo = match self.try_read(ptr) {
                        Ok(b) => b,
                        Err(e) => {
                            return Err(e);
                        },
                    };
                    let hi = match self.try_read(ptr - 0xFF) {
                        Ok(b) => b,
                        Err(e) => {
                            return Err(e);
                        },
                    };
                    Ok(lo as u16 + (hi as u16) * 256)
                } else {
                    self.try_read16(ptr)
                }
            },
            AddressingMode::IndirectX => {
                let base = match self.try_read(self.program_counter) {
                    Ok(b) => b,
                    Err(e) => {
                        return Err(e);
                    },
                };
                let ptr = base.wrapping_add(self.index_register_x);
                let lo = self.bus.read_mem_u8(ptr as u16);
                let hi = self.bus.read_mem_u8(ptr.wrapping_add(1) as u16);
                Ok(lo as u16 + (hi as u16) * 256)
            },
            AddressingMode::IndirectY => {
                let base = match self.try_read(self.program_counter) {
                    Ok(b) => b,
                    Err(e) => {
                        return Err(e);
                    },
                };
                let lo = self.bus.read_mem_u8(base as u16);
                let hi = self.bus.read_mem_u8(base.wrapping_add(1) as u16);
                let word_at_base = lo as u16 + (hi as u16) * 256;
                Ok(word_at_base.wrapping_add(self.index_register_y as u16))
            },
            AddressingMode::NoneAddressing => unreached(),
            AddressingMode::Accumulator => unreached(),
        }
    }

    /// The resolved operand byte, or the fault resolution or the read ran
    /// into.
    fn read_operand(&self, mode: &AddressingMode) -> (r: Result<u8, EmuError>)
        requires
            self.wf(),
            addressable(*mode),
        ensures
            r == operand_byte(self.model(), *mode),
    {
        match self.get_operand_address(mode) {
            Ok(addr) => self.try_read(addr),
            Err(e) => Err(e),
        }
    }

    /// Load the operand into the accumulator.
    pub fn lda(&mut self, mode: &AddressingMode) -> (r: Result<(), EmuError>)
        requires
            old(self).wf(),
            addressable(*mode),
        ensures
            final(self).wf(),
            outcome(
                old(self).model(),
                final(self).model(),
                r,
                crate::model::lda_result(old(self).model(), *mode),
            ),
    {
        let value = match self.read_operand(mode) {
            Ok(v) => v,
            Err(e) => {
                return Err(e);
            },
        };
        self.set_register_a(value);
        Ok(())
    }

    /// Load the operand into the X register.
    pub fn ldx(&mut self, mode: &AddressingMode) -> (r: Result<(), EmuError>)
        requires
            old(self).wf(),
            addressable(*mode),
        ensures
            final(self).wf(),
            outcome(
                old(self).model(),
                final(self).model(),
                r,
                crate::model::ldx_result(old(self).model(), *mode),
            ),
    {
        let value = match self.read_operand(mode) {
            Ok(v) => v,
            Err(e) => {
                return Err(e);
            },
        };
        self.set_register_x(value);
        Ok(())
    }

    /// Load the operand into the Y register.
    pub fn ldy(&mut self, mode: &AddressingMode) -> (r: Result<(), EmuError>)
        requires
            old(self).wf(),
            addressable(*mode),
        ensures
            final(self).wf(),
            outcome(
                old(self).model(),
                final(self).model(),
                r,
                crate::model::ldy_result(old(self).model(), *mode),
            ),
    {
        let value = match self.read_operand(mode) {
            Ok(v) => v,
            Err(e) => {
                return Err(e);
            },
        };
        self.set_register_y(value);
        Ok(())
    }

    /// Add the operand and the carry into the accumulator.
    pub fn adc(&mut self, mode: &AddressingMode) -> (r: Result<(), EmuError>)
        requires
            old(self).wf(),
            addressable(*mode),
        ensures
            final(self).wf(),
            outcome(
                old(self).model(),
                final(self).model(),
                r,
                crate::model::adc_op_result(old(self).model(), *mode),
            ),
    {
        let value = match self.read_operand(mode) {
            Ok(v) => v,
            Err(e) => {
                return Err(e);
            },
        };
        self.add_to_register_a(value);
        Ok(())
    }

    /// Subtract the operand with borrow: add-with-carry of the operand's
    /// bitwise complement, which is 255 minus the operand.
    pub fn sbc(&mut self, mode: &AddressingMode) -> (r: Result<(), EmuError>)
        requires
            old(self).wf(),
            addressable(*mode),
        ensures
            final(self).wf(),
            outcome(
                old(self).model(),
                final(self).model(),
                r,
                crate::model::sbc_op_result(old(self).model(), *mode),
            ),
    {
        let value = match self.read_operand(mode) {
            Ok(v) => v,
            Err(e) => {
                return Err(e);
            },
        };
        self.add_to_register_a(255 - value);
        Ok(())
    }

    /// Bitwise AND of the accumulator and the operand.
    pub fn and(&mut self, mode: &AddressingMode) -> (r: Result<(), EmuError>)
        requires
            old(self).wf(),
            addressable(*mode),
        ensures
            final(self).wf(),
            outcome(
                old(self).model(),
                final(self).model(),
                r,
                crate::model::and_result(old(self).model(), *mode),
            ),
    {
        let value = match self.read_operand(mode) {
            Ok(v) => v,
            Err(e) => {
                return Err(e);
            },
        };
        let combined = self.accumulator & value;
        self.set_register_a(combined);
        Ok(())
    }

    /// Bitwise inclusive OR of the accumulator and the operand.
    pub fn ora(&mut self, mode: &AddressingMode) -> (r: Result<(), EmuError>)
        requires
            old(self).wf(),
            addressable(*mode),
        ensures
            final(self).wf(),
            outcome(
                old(self).model(),
                final(self).model(),
                r,
                crate::model::ora_result(old(self).model(), *mode),
            ),
    {
        let value = match self.read_operand(mode) {
            Ok(v) => v,
            Err(e) => {
                return Err(e);
            },
        };
        let combined = self.accumulator | value;
        self.set_register_a(combined);
        Ok(())
    }

    /// Bitwise exclusive OR of the accumulator and the operand.
    pub fn eor(&mut self, mode: &AddressingMode) -> (r: Result<(), EmuError>)
        requires
            old(self).wf(),
            addressable(*mode),
        ensures
            final(self).wf(),
            outcome(
                old(self).model(),
                final(self).model(),
                r,
                crate::model::eor_result(old(self).model(), *mode),
            ),
    {
        let value = match self.read_operand(mode) {
            Ok(v) => v,
            Err(e) => {
                return Err(e);
            },
        };
        let combined = self.accumulator ^ value;
        self.set_register_a(combined);
        Ok(())
    }

    /// Store the accumulator at the resolved location.
    pub fn sta(&mut self, mode: &AddressingMode) -> (r: Result<(), EmuError>)
        requires
            old(self).wf(),
            addressable(*mode),
        ensures
            final(self).wf(),
            outcome(
                old(self).model(),
                final(self).model(),
                r,
                crate::model::sta_result(old(self).model(), *mode),
            ),
    {
        let addr = match self.get_operand_address(mode) {
            Ok(a) => a,
            Err(e) => {
                return Err(e);
            },
        };
        self.try_write(addr, self.accumulator)
    }

    /// Store the X register at the resolved location.
    pub fn stx(&mut self, mode: &AddressingMode) -> (r: Result<(), EmuError>)
        requires
            old(self).wf(),
            addressable(*mode),
        ensures
            final(self).wf(),
            outcome(
                old(self).model(),
                final(self).model(),
                r,
                crate::model::stx_result(old(self).model(), *mode),
            ),
    {
        let addr = match self.get_operand_address(mode) {
            Ok(a) => a,
            Err(e) => {
                return Err(e);
            },
        };
        self.try_write(addr, self.index_register_x)
    }

    /// Store the Y register at the resolved location.
    pub fn sty(&mut self, mode: &AddressingMode) -> (r: Result<(), EmuError>)
        requires
            old(self).wf(),
            addressable(*mode),
        ensures
            final(self).wf(),
            outcome(
                old(self).model(),
                final(self).model(),
                r,
                crate::model::sty_result(old(self).model(), *mode),
            ),
    {
        let addr = match self.get_operand_address(mode) {
            Ok(a) => a,
            Err(e) => {
                return Err(e);
            },
        };
        self.try_write(addr, self.index_register_y)
    }

    /// Arithmetic shift left of the accumulator: the shifted-out bit 7 lands
    /// in Carry, bit 0 fills with zero.
    pub fn asl_acc(&mut self)
        requires
            old(self).wf(),
        ensures
            final(self).wf(),
            final(self).model() == crate::model::asl_acc_result(old(self).model()),
    {
        let wide: u16 = (self.accumulator as u16) * 2;
        self.processor_status.set_flag(ProcessorStatusFlags::CarryFlag, wide > 0xFF);
        self.set_register_a((wide % 256) as u8);
        proof {
            assert(self.model() =~= crate::model::asl_acc_result(old(self).model()));
        }
    }

    /// Arithmetic shift left of a memory byte: Carry from the shifted-out
    /// bit 7, Zero and Negative from the written-back result.
    pub fn asl(&mut self, mode: &AddressingMode) -> (r: Result<(), EmuError>)
        requires
            old(self).wf(),
            addressable(*mode),
        ensures
            final(self).wf(),
            outcome(
                old(self).model(),
                final(self).model(),
                r,
                crate::model::asl_mem_result(old(self).model(), *mode),
            ),
    {
        let addr = match self.get_operand_address(mode) {
            Ok(a) => a,
            Err(e) => {
                return Err(e);
            },
        };
        let value = match self.try_read(addr) {
            Ok(v) => v,
            Err(e) => {
                return Err(e);
            },
        };
        let wide: u16 = (value as u16) * 2;
        let result = (wide % 256) as u8;
        self.processor_status.set_flag(ProcessorStatusFlags::CarryFlag, wide > 0xFF);
        self.bus.write_mem_u8(addr, result);
        self.processor_status.update_zero_and_negative_flags(result);
        proof {
            assert(Ok::<CpuModel, EmuError>(self.model()) =~= crate::model::asl_mem_result(
                    old(self).model(),
                    *mode,
                ));
        }
        Ok(())
    }

    /// Logical shift right of the accumulator: the shifted-out bit 0 lands
    /// in Carry, bit 7 fills with zero.
    pub fn lsr_acc(&mut self)
        requires
            old(self).wf(),
        ensures
            final(self).wf(),
            final(self).model() == crate::model::lsr_acc_result(old(self).model()),
    {
        let value = self.accumulator;
        self.processor_status.set_flag(ProcessorStatusFlags::CarryFlag, value % 2 == 1);
        self.set_register_a(value / 2);
        proof {
            assert(self.model() =~= crate::model::lsr_acc_result(old(self).model()));
        }
    }

    /// Logical shift right of a memory byte.
    pub fn lsr(&mut self, mode: &AddressingMode) -> (r: Result<(), EmuError>)
        requires
            old(self).wf(),
            addressable(*mode),
        ensures
            final(self).wf(),
            outcome(
                old(self).model(),
                final(self).model(),
                r,
                crate::model::lsr_mem_result(old(self).model(), *mode),
            ),
    {
        let addr = match self.get_operand_address(mode) {
            Ok(a) => a,
            Err(e) => {
                return Err(e);
            },
        };
        let value = match self.try_read(addr) {
            Ok(v) => v,
            Err(e) => {
                return Err(e);
            },
        };
        let result = value / 2;
        self.processor_status.set_flag(ProcessorStatusFlags::CarryFlag, value % 2 == 1);
        self.bus.write_mem_u8(addr, result);
        self.processor_status.update_zero_and_negative_flags(result);
        proof {
            assert(Ok::<CpuModel, EmuError>(self.model()) =~= crate::model::lsr_mem_result(
                    old(self).model(),
                    *mode,
                ));
        }
        Ok(())
    }

    /// Rotate left of the accumulator: Carry is set from the shifted-out
    /// bit 7 while the old Carry fills bit 0.
    pub fn rol_acc(&mut self)
        requires
            old(self).wf(),
        ensures
            final(self).wf(),
            final(self).model() == crate::model::rol_acc_result(old(self).model()),
    {
        let value = self.accumulator;
        let carry_in: u16 = if self.processor_status.has_flag_set(
            ProcessorStatusFlags::CarryFlag,
        ) {
            1
        } else {
            0
        };
        let result = (((value as u16) * 2 + carry_in) % 256) as u8;
        self.processor_status.set_flag(ProcessorStatusFlags::CarryFlag, value >= 0x80);
        self.set_register_a(result);
        proof {
            assert(self.model() =~= crate::model::rol_acc_result(old(self).model()));
        }
    }

    /// Rotate left of a memory byte.
    pub fn rol(&mut self, mode: &AddressingMode) -> (r: Result<(), EmuError>)
        requires
            old(self).wf(),
            addressable(*mode),
        ensures
            final(self).wf(),
            outcome(
                old(self).model(),
                final(self).model(),
                r,
                crate::model::rol_mem_result(old(self).model(), *mode),
            ),
    {
        let addr = match self.get_operand_address(mode) {
            Ok(a) => a,
            Err(e) => {
                return Err(e);
            },
        };
        let value = match self.try_read(addr) {
            Ok(v) => v,
            Err(e) => {
                return Err(e);
            },
        };
        let carry_in: u16 = if self.processor_status.has_flag_set(
            ProcessorStatusFlags::CarryFlag,
        ) {
            1
        } else {
            0
        };
        let result = (((value as u16) * 2 + carry_in) % 256) as u8;
        self.processor_status.set_flag(ProcessorStatusFlags::CarryFlag, value >= 0x80);
        self.bus.write_mem_u8(addr, result);
        self.processor_status.update_zero_and_negative_flags(result);
        proof {
            assert(Ok::<CpuModel, EmuError>(self.model()) =~= crate::model::rol_mem_result(
                    old(self).model(),
                    *mode,
                ));
        }
        Ok(())
    }

    /// Rotate right of the accumulator: Carry is set from the shifted-out
    /// bit 0 while the old Carry fills bit 7.
    pub fn ror_acc(&mut self)
        requires
            old(self).wf(),
        ensures
            final(self).wf(),
            final(self).model() == crate::model::ror_acc_result(old(self).model()),
    {
        let value = self.accumulator;
        let fill: u8 = if self.processor_status.has_flag_set(ProcessorStatusFlags::CarryFlag) {
            128
        } else {
            0
        };
        let result = value / 2 + fill;
        self.processor_status.set_flag(ProcessorStatusFlags::CarryFlag, value % 2 == 1);
        self.set_register_a(result);
        proof {
            assert(self.model() =~= crate::model::ror_acc_result(old(self).model()));
        }
    }

    /// Rotate right of a memory byte.
    pub fn ror(&mut self, mode: &AddressingMode) -> (r: Result<(), EmuError>)
        requires
            old(self).wf(),
            addressable(*mode),
        ensures
            final(self).wf(),
            outcome(
                old(self).model(),
                final(self).model(),
                r,
                crate::model::ror_mem_result(old(self).model(), *mode),
            ),
    {
        let addr = match self.get_operand_address(mode) {
            Ok(a) => a,
            Err(e) => {
                return Err(e);
            },
        };
        let value = match self.try_read(addr) {
            Ok(v) => v,
            Err(e) => {
                return Err(e);
            },
        };
        let fill: u8 = if self.processor_status.has_flag_set(ProcessorStatusFlags::CarryFlag) {
            128
        } else {
            0
        };
        let result = value / 2 + fill;
        self.processor_status.set_flag(ProcessorStatusFlags::CarryFlag, value % 2 == 1);
        self.bus.write_mem_u8(addr, result);
        self.processor_status.update_zero_and_negative_flags(result);
        proof {
            assert(Ok::<CpuModel, EmuError>(self.model()) =~= crate::model::ror_mem_result(
                    old(self).model(),
                    *mode,
                ));
        }
        Ok(())
    }

    /// Increment a memory byte, wrapping, Zero and Negative from the new
    /// value.
    pub fn inc(&mut self, mode: &AddressingMode) -> (r: Result<(), EmuError>)
        requires
            old(self).wf(),
            addressable(*mode),
        ensures
            final(self).wf(),
            outcome(
                old(self).model(),
                final(self).model(),
                r,
                crate::model::inc_result(old(self).model(), *mode),
            ),
    {
        let addr = match self.get_operand_address(mode) {
            Ok(a) => a,
            Err(e) => {
                return Err(e);
            },
        };
        let value = match self.try_read(addr) {
            Ok(v) => v,
            Err(e) => {
                return Err(e);
            },
        };
        let result = value.wrapping_add(1);
        self.bus.write_mem_u8(addr, result);
        self.processor_status.update_zero_and_negative_flags(result);
        proof {
            assert(Ok::<CpuModel, EmuError>(self.model()) =~= crate::model::inc_result(
                    old(self).model(),
                    *mode,
                ));
        }
        Ok(())
    }

    /// Decrement a memory byte, wrapping.
    pub fn dec(&mut self, mode: &AddressingMode) -> (r: Result<(), EmuError>)
        requires
            old(self).wf(),
            addressable(*mode),
        ensures
            final(self).wf(),
            outcome(
                old(self).model(),
                final(self).model(),
                r,
                crate::model::dec_result(old(self).model(), *mode),
            ),
    {
        let addr = match self.get_operand_address(mode) {
            Ok(a) => a,
            Err(e) => {
                return Err(e);
            },
        };
        let value = match self.try_read(addr) {
            Ok(v) => v,
            Err(e) => {
                return Err(e);
            },
        };
        let result = value.wrapping_sub(1);
        self.bus.write_mem_u8(addr, result);
        self.processor_status.update_zero_and_negative_flags(result);
        proof {
            assert(Ok::<CpuModel, EmuError>(self.model()) =~= crate::model::dec_result(
                    old(self).model(),
                    *mode,
                ));
        }
        Ok(())
    }

    /// The bit test: Zero reports whether the AND of accumulator and operand
    /// is zero, Negative mirrors bit 6 of the raw operand, Overflow bit 7 of
    /// the raw operand. The AND result itself is discarded.
    pub fn bit(&mut self, mode: &AddressingMode) -> (r: Result<(), EmuError>)
        requires
            old(self).wf(),
            addressable(*mode),
        ensures
            final(self).wf(),
            outcome(
                old(self).model(),
                final(self).model(),
                r,
                crate::model::bit_result(old(self).model(), *mode),
            ),
    {
        let value = match self.read_operand(mode) {
            Ok(v) => v,
            Err(e) => {
                return Err(e);
            },
        };
        let masked = self.accumulator & value;
        self.processor_status.set_flag(ProcessorStatusFlags::ZeroFlag, masked == 0);
        self.processor_status.set_flag(ProcessorStatusFlags::Negative, value & 0x40 != 0);
        self.processor_status.set_flag(ProcessorStatusFlags::Overflow, value >= 0x80);
        proof {
            assert(Ok::<CpuModel, EmuError>(self.model()) =~= crate::model::bit_result(
                    old(self).model(),
                    *mode,
                ));
        }
        Ok(())
    }

    /// Sets the flags of an unsigned compare of register value `a` against
    /// operand `b`: below clears Zero and Carry, equal sets both and clears
    /// Negative, above clears Zero and sets Carry; when the two differ,
    /// Negative mirrors bit 7 of the register.
    pub fn set_compare_flags(&mut self, a: u8, b: u8)
        requires
            old(self).wf(),
        ensures
            final(self).wf(),
            final(self).model() == (CpuModel {
                status: compare_status(old(self).processor_status.0, a, b),
                ..old(self).model()
            }),
    {
        if a < b {
            self.processor_status.set_flag_false(ProcessorStatusFlags::ZeroFlag);
            self.processor_status.set_flag_false(ProcessorStatusFlags::CarryFlag);
            self.processor_status.set_flag(ProcessorStatusFlags::Negative, a >= 0x80);
        } else if a == b {
            self.processor_status.set_flag_true(ProcessorStatusFlags::ZeroFlag);
            self.processor_status.set_flag_true(ProcessorStatusFlags::CarryFlag);
            self.processor_status.set_flag_false(ProcessorStatusFlags::Negative);
        } else {
            self.processor_status.set_flag_false(ProcessorStatusFlags::ZeroFlag);
            self.processor_status.set_flag_true(ProcessorStatusFlags::CarryFlag);
            self.processor_status.set_flag(ProcessorStatusFlags::Negative, a >= 0x80);
        }
        proof {
            assert(self.model() =~= (CpuModel {
                status: compare_status(old(self).processor_status.0, a, b),
                ..old(self).model()
            }));
        }
    }

    /// Compare the accumulator with the operand.
    pub fn cmp(&mut self, mode: &AddressingMode) -> (r: Result<(), EmuError>)
        requires
            old(self).wf(),
            addressable(*mode),
        ensures
            final(self).wf(),
            outcome(
                old(self).model(),
                final(self).model(),
                r,
                crate::model::cmp_result(old(self).model(), *mode),
            ),
    {
        let value = match self.read_operand(mode) {
            Ok(v) => v,
            Err(e) => {
                return Err(e);
            },
        };
        self.set_compare_flags(self.accumulator, value);
        Ok(())
    }

    /// Compare the X register with the operand.
    pub fn cpx(&mut self, mode: &AddressingMode) -> (r: Result<(), EmuError>)
        requires
            old(self).wf(),
            addressable(*mode),
        ensures
            final(self).wf(),
            outcome(
                old(self).model(),
                final(self).model(),
                r,
                crate::model::cpx_result(old(self).model(), *mode),
            ),
    {
        let value = match self.read_operand(mode) {
            Ok(v) => v,
            Err(e) => {
                return Err(e);
            },
        };
        self.set_compare_flags(self.index_register_x, value);
        Ok(())
    }

    /// Compare the Y register with the operand.
    pub fn cpy(&mut self, mode: &AddressingMode) -> (r: Result<(), EmuError>)
        requires
            old(self).wf(),
            addressable(*mode),
        ensures
            final(self).wf(),
            outcome(
                old(self).model(),
                final(self).model(),
                r,
                crate::model::cpy_result(old(self).model(), *mode),
            ),
    {
        let value = match self.read_operand(mode) {
            Ok(v) => v,
            Err(e) => {
                return Err(e);
            },
        };
        self.set_compare_flags(self.index_register_y, value);
        Ok(())
    }

    /// Takes a branch: reads the signed displacement byte at the program
    /// counter and moves the program counter past that byte and then by the
    /// displacement, both sums wrapping.
    pub fn branch(&mut self) -> (r: Result<(), EmuError>)
        requires
            old(self).wf(),
        ensures
            final(self).wf(),
            outcome(
                old(self).model(),
                final(self).model(),
                r,
                branch_result(old(self).model(), true),
            ),
    {
        let displacement = match self.try_read(self.program_counter) {
            Ok(d) => d,
            Err(e) => {
                return Err(e);
            },
        };
        let offset: u16 = if displacement < 0x80 {
            displacement as u16
        } else {
            0xFF00 + displacement as u16
        };
        self.program_counter = self.program_counter.wrapping_add(1).wrapping_add(offset);
        Ok(())
    }

    /// Branch when Carry is clear.
    pub fn bcc(&mut self) -> (r: Result<(), EmuError>)
        requires
            old(self).wf(),
        ensures
            final(self).wf(),
            outcome(
                old(self).model(),
                final(self).model(),
                r,
                branch_result(
                    old(self).model(),
                    old(self).processor_status.0 & crate::processor_status::CARRY_MASK == 0,
                ),
            ),
    {
        if !self.processor_status.has_flag_set(ProcessorStatusFlags::CarryFlag) {
            self.branch()
        } else {
            Ok(())
        }
    }

    /// Branch when Carry is set.
    pub fn bcs(&mut self) -> (r: Result<(), EmuError>)
        requires
            old(self).wf(),
        ensures
            final(self).wf(),
            outcome(
                old(self).model(),
                final(self).model(),
                r,
                branch_result(
                    old(self).model(),
                    old(self).processor_status.0 & crate::processor_status::CARRY_MASK != 0,
                ),
            ),
    {
        if self.processor_status.has_flag_set(ProcessorStatusFlags::CarryFlag) {
            self.branch()
        } else {
            Ok(())
        }
    }

    /// Branch when Zero is set.
    pub fn beq(&mut self) -> (r: Result<(), EmuError>)
        requires
            old(self).wf(),
        ensures
            final(self).wf(),
            outcome(
                old(self).model(),
                final(self).model(),
                r,
                branch_result(
                    old(self).model(),
                    old(self).processor_status.0 & crate::processor_status::ZERO_MASK != 0,
                ),
            ),
    {
        if self.processor_status.has_flag_set(ProcessorStatusFlags::ZeroFlag) {
            self.branch()
        } else {
            Ok(())
        }
    }

    /// Branch when Zero is clear.
    pub fn bne(&mut self) -> (r: Result<(), EmuError>)
        requires
            old(self).wf(),
        ensures
            final(self).wf(),
            outcome(
                old(self).model(),
                final(self).model(),
                r,
                branch_result(
                    old(self).model(),
                    old(self).processor_status.0 & crate::processor_status::ZERO_MASK == 0,
                ),
            ),
    {
        if !self.processor_status.has_flag_set(ProcessorStatusFlags::ZeroFlag) {
            self.branch()
        } else {
            Ok(())
        }
    }

    /// Branch when Negative is clear.
    pub fn bpl(&mut self) -> (r: Result<(), EmuError>)
        requires
            old(self).wf(),
        ensures
            final(self).wf(),
            outcome(
                old(self).model(),
                final(self).model(),
                r,
                branch_result(
                    old(self).model(),
                    old(self).processor_status.0 & crate::processor_status::NEGATIVE_MASK == 0,
                ),
            ),
    {
        if !self.processor_status.has_flag_set(ProcessorStatusFlags::Negative) {
            self.branch()
        } else {
            Ok(())
        }
    }

    /// Branch when Negative is set.
    pub fn bmi(&mut self) -> (r: Result<(), EmuError>)
        requires
            old(self).wf(),
        ensures
            final(self).wf(),
            outcome(
                old(self).model(),
                final(self).model(),
                r,
                branch_result(
                    old(self).model(),
                    old(self).processor_status.0 & crate::processor_status::NEGATIVE_MASK != 0,
                ),
            ),
    {
        if self.processor_status.has_flag_set(ProcessorStatusFlags::Negative) {
            self.branch()
        } else {
            Ok(())
        }
    }

    /// Branch when Overflow is clear.
    pub fn bvc(&mut self) -> (r: Result<(), EmuError>)
        requires
            old(self).wf(),
        ensures
            final(self).wf(),
            outcome(
                old(self).model(),
                final(self).model(),
                r,
                branch_result(
                    old(self).model(),
                    old(self).processor_status.0 & crate::processor_status::OVERFLOW_MASK == 0,
                ),
            ),
    {
        if !self.processor_status.has_flag_set(ProcessorStatusFlags::Overflow) {
            self.branch()
        } else {
            Ok(())
        }
    }

    /// Branch when Overflow is set.
    pub fn bvs(&mut self) -> (r: Result<(), EmuError>)
        requires
            old(self).wf(),
        ensures
            final(self).wf(),
            outcome(
                old(self).model(),
                final(self).model(),
                r,
                branch_result(
                    old(self).model(),
                    old(self).processor_status.0 & crate::processor_status::OVERFLOW_MASK != 0,
                ),
            ),
    {
        if self.processor_status.has_flag_set(ProcessorStatusFlags::Overflow) {
            self.branch()
        } else {
            Ok(())
        }
    }

    /// The byte on top of the stack, without moving the stack.
    fn peek_stack(&self) -> (v: u8)
        requires
            self.wf(),
        ensures
            v == top_of_stack(self.model()),
    {
        self.bus.read_mem_u8(self.stack_pointer - self.stack_base.wrapping_sub(1) as u16)
    }

    /// Return from an interrupt: pops the status byte, then the program
    /// counter, low byte first.
    pub fn rti(&mut self)
        requires
            old(self).wf(),
        ensures
            final(self).wf(),
            final(self).model() == crate::model::rti_result(old(self).model()),
    {
        let flags = self.pop_stack();
        let lo = self.pop_stack();
        let hi = self.pop_stack();
        self.processor_status.0 = flags;
        self.program_counter = lo as u16 + (hi as u16) * 256;
        proof {
            assert(self.model() =~= crate::model::rti_result(old(self).model()));
        }
    }

    /// The break placeholder. Full interrupt semantics — pushing state and
    /// vectoring through 0xFFFE — are left out on purpose; the run loop
    /// halts on the break opcode instead, so this does nothing.
    pub fn brk(&mut self)
        requires
            old(self).wf(),
        ensures
            final(self).wf(),
            *final(self) == *old(self),
    {
    }

    /// Runs the handler of one recognized, non-break instruction, the program
    /// counter already moved past the opcode byte. Dispatch is on the raw
    /// byte value; the addressing mode handed in is the table's for `code`.
    #[verifier::rlimit(100)]
    fn execute_instruction(&mut self, code: u8, mode: &AddressingMode) -> (r: Result<
        (),
        EmuError,
    >)
        requires
            old(self).wf(),
            opcode_recognized(code),
            code != 0x00,
            *mode == opcode_mode(code),
        ensures
            final(self).wf(),
            outcome(
                old(self).model(),
                final(self).model(),
                r,
                instruction_result(old(self).model(), code),
            ),
    {
        match code {
            // Loads.
            0xA9 | 0xA5 | 0xB5 | 0xAD | 0xBD | 0xB9 | 0xA1 | 0xB1 => self.lda(mode),
            0xA2 | 0xA6 | 0xB6 | 0xAE | 0xBE => self.ldx(mode),
            0xA0 | 0xA4 | 0xB4 | 0xAC | 0xBC => self.ldy(mode),
            // Arithmetic.
            0x69 | 0x65 | 0x75 | 0x6D | 0x7D | 0x79 | 0x61 | 0x71 => self.adc(mode),
            0xE9 | 0xE5 | 0xF5 | 0xED | 0xFD | 0xF9 | 0xE1 | 0xF1 => self.sbc(mode),
            // Bitwise operations and shifts.
            0x29 | 0x25 | 0x35 | 0x2D | 0x3D | 0x39 | 0x21 | 0x31 => self.and(mode),
            0x4A => {
                self.lsr_acc();
                Ok(())
            },
            0x46 | 0x56 | 0x4E | 0x5E => self.lsr(mode),
            0x0A => {
                self.asl_acc();
                Ok(())
            },
            0x06 | 0x16 | 0x0E | 0x1E => self.asl(mode),
            0x09 | 0x05 | 0x15 | 0x0D | 0x1D | 0x19 | 0x01 | 0x11 => self.ora(mode),
            0x49 | 0x45 | 0x55 | 0x4D | 0x5D | 0x59 | 0x41 | 0x51 => self.eor(mode),
            // Branches.
            0xB0 => self.bcs(),
            0xF0 => self.beq(),
            0xD0 => self.bne(),
            0x10 => self.bpl(),
            0x30 => self.bmi(),
            0x50 => self.bvc(),
            0x70 => self.bvs(),
            0x90 => self.bcc(),
            // The absolute jump loads the program counter with the operand
            // word.
            0x4C => {
                let target = match self.try_read16(self.program_counter) {
                    Ok(t) => t,
                    Err(e) => {
                        return Err(e);
                    },
                };
                self.program_counter = target;
                proof {
                    assert(Ok::<CpuModel, EmuError>(self.model())
                        =~= crate::model::jmp_absolute_result(old(self).model()));
                }
                Ok(())
            },
            // The indirect jump resolves the pointer with the page-boundary
            // bug, then loads the program counter.
            0x6C => {
                let target = match self.get_operand_address(&AddressingMode::Indirect) {
                    Ok(t) => t,
                    Err(e) => {
                        return Err(e);
                    },
                };
                self.program_counter = target;
                proof {
                    assert(Ok::<CpuModel, EmuError>(self.model())
                        =~= crate::model::jmp_indirect_result(old(self).model()));
                }
                Ok(())
            },
            // Call a subroutine: the target is read first, so that a faulting
            // read leaves the machine untouched; then the address of the
            // call's last byte is pushed and the jump taken.
            0x20 => {
                let target = match self.try_read16(self.program_counter) {
                    Ok(t) => t,
                    Err(e) => {
                        return Err(e);
                    },
                };
                self.push_stack_u16(self.program_counter.wrapping_add(1));
                self.program_counter = target;
                proof {
                    assert(Ok::<CpuModel, EmuError>(self.model()) =~= crate::model::jsr_result(
                        old(self).model(),
                    ));
                }
                Ok(())
            },
            // Return from a subroutine: the popped word plus one.
            0x60 => {
                let return_point = self.read_stack_u16();
                self.program_counter = return_point.wrapping_add(1);
                proof {
                    assert(self.model() =~= crate::model::rts_result(old(self).model()));
                }
                Ok(())
            },
            // Flag clears and sets.
            0x18 => {
                self.processor_status.set_flag_false(ProcessorStatusFlags::CarryFlag);
                Ok(())
            },
            0xD8 => {
                self.processor_status.set_flag_false(ProcessorStatusFlags::DecimalMode);
                Ok(())
            },
            0x58 => {
                self.processor_status.set_flag_false(ProcessorStatusFlags::InterruptDisable);
                Ok(())
            },
            0xB8 => {
                self.processor_status.set_flag_false(ProcessorStatusFlags::Overflow);
                Ok(())
            },
            0x38 => {
                self.processor_status.set_flag_true(ProcessorStatusFlags::CarryFlag);
                Ok(())
            },
            0xF8 => {
                self.processor_status.set_flag_true(ProcessorStatusFlags::DecimalMode);
                Ok(())
            },
            0x78 => {
                self.processor_status.set_flag_true(ProcessorStatusFlags::InterruptDisable);
                Ok(())
            },
            // Compares and the bit test.
            0x24 | 0x2C => self.bit(mode),
            0xC9 | 0xC5 | 0xD5 | 0xCD | 0xDD | 0xD9 | 0xC1 | 0xD1 => self.cmp(mode),
            0xE0 | 0xE4 | 0xEC => self.cpx(mode),
            0xC0 | 0xC4 | 0xCC => self.cpy(mode),
            // Transfers. The two stack-reading forms copy the byte on top of
            // the stack into an index register without moving the stack.
            0xAA => {
                self.set_register_x(self.accumulator);
                Ok(())
            },
            0xA8 => {
                self.set_register_y(self.accumulator);
                Ok(())
            },
            0xBA => {
                let top = self.peek_stack();
                self.set_register_x(top);
                Ok(())
            },
            0x8A => {
                self.set_register_a(self.index_register_x);
                Ok(())
            },
            0x9A => {
                let top = self.peek_stack();
                self.set_register_y(top);
                Ok(())
            },
            0x98 => {
                self.set_register_a(self.index_register_y);
                Ok(())
            },
            // Increments and decrements.
            0xE6 | 0xF6 | 0xEE | 0xFE => self.inc(mode),
            0xE8 => {
                self.set_register_x(self.index_register_x.wrapping_add(1));
                Ok(())
            },
            0xC8 => {
                self.set_register_y(self.index_register_y.wrapping_add(1));
                Ok(())
            },
            0xC6 | 0xD6 | 0xCE | 0xDE => self.dec(mode),
            0xCA => {
                self.set_register_x(self.index_register_x.wrapping_sub(1));
                Ok(())
            },
            0x88 => {
                self.set_register_y(self.index_register_y.wrapping_sub(1));
                Ok(())
            },
            // Stack pushes and pops. The pop into the accumulator moves no
            // flag.
            0x48 => {
                self.push_stack(self.accumulator);
                Ok(())
            },
            0x08 => {
                let value = self.pop_stack();
                self.accumulator = value;
                proof {
                    assert(Ok::<CpuModel, EmuError>(self.model()) =~= instruction_result(
                        old(self).model(),
                        code,
                    ));
                }
                Ok(())
            },
            0x28 => {
                let value = self.pop_stack();
                self.processor_status.0 = value;
                proof {
                    assert(Ok::<CpuModel, EmuError>(self.model()) =~= instruction_result(
                        old(self).model(),
                        code,
                    ));
                }
                Ok(())
            },
            // Rotates.
            0x2A => {
                self.rol_acc();
                Ok(())
            },
            0x26 | 0x36 | 0x2E | 0x3E => self.rol(mode),
            0x6A => {
                self.ror_acc();
                Ok(())
            },
            0x66 | 0x76 | 0x6E | 0x7E => self.ror(mode),
            // Stores.
            0x85 | 0x95 | 0x8D | 0x9D | 0x99 | 0x81 | 0x91 => self.sta(mode),
            0x84 | 0x94 | 0x8C => self.sty(mode),
            0x86 | 0x96 | 0x8E => self.stx(mode),
            // No operation: only the generic advance applies.
            0xEA => Ok(()),
            // Return from interrupt.
            0x40 => {
                self.rti();
                Ok(())
            },
            // Every recognized non-break opcode is dispatched above; the
            // model reports anything else as unrecognized, and so does this.
            _ => Err(EmuError::UnrecognizedOpcode { code }),
        }
    }

    /// One transition of the run loop: fetch the opcode byte at the program
    /// counter, look it up, and execute it with the program counter moved
    /// past the opcode. The break opcode halts (`Ok(false)`). When the
    /// handler leaves the program counter alone, the generic advance skips
    /// the operand bytes. On a fault nothing moves.
    pub fn step(&mut self) -> (r: Result<bool, EmuError>)
        requires
            old(self).wf(),
        ensures
            final(self).wf(),
            match step_result(old(self).model()) {
                Ok((m2, running)) => r == Ok::<bool, EmuError>(running) && final(self).model()
                    == m2,
                Err(e) => r == Err::<bool, EmuError>(e) && final(self).model() == old(
                    self,
                ).model(),
            },
    {
        let starting_pc = self.program_counter;
        let code = match self.try_read(starting_pc) {
            Ok(c) => c,
            Err(e) => {
                return Err(e);
            },
        };
        let op = match opcode_lookup(code) {
            Some(op) => op,
            None => {
                return Err(EmuError::UnrecognizedOpcode { code });
            },
        };
        self.program_counter = starting_pc.wrapping_add(1);
        if code == 0x00 {
            return Ok(false);
        }
        let pc_after_fetch = self.program_counter;
        match self.execute_instruction(code, &op.addressing_mode) {
            Ok(()) => {},
            Err(e) => {
                self.program_counter = starting_pc;
                proof {
                    assert(self.model() =~= old(self).model());
                }
                return Err(e);
            },
        }
        if self.program_counter == pc_after_fetch {
            self.program_counter = self.program_counter.wrapping_add((op.bytes - 1) as u16);
        }
        Ok(true)
    }

    /// Runs until the break opcode halts the machine or a fault stops it.
    /// On `Ok` the final state is a finite iteration of the step relation
    /// ending in a halt; on any fault but the step budget, the final state is
    /// the last good one and the next step from it is exactly that fault; and
    /// the step budget itself is reported only after the full 2^64 - 1 steps
    /// genuinely ran, so for every program that halts or faults sooner the
    /// outcome above is the only one the contract admits.
    pub fn run(&mut self) -> (r: Result<(), EmuError>)
        requires
            old(self).wf(),
        ensures
            final(self).wf(),
            r is Ok ==> exists|n: nat|
                run_steps(old(self).model(), n) == Ok::<(CpuModel, bool), EmuError>(
                    (final(self).model(), false),
                ),
            r is Err ==> exists|n: nat|
                run_steps(old(self).model(), n) == Ok::<(CpuModel, bool), EmuError>(
                    (final(self).model(), true),
                ),
            r is Err && r->Err_0 != EmuError::StepLimit ==> step_result(final(self).model())
                == Err::<(CpuModel, bool), EmuError>(r->Err_0),
            r == Err::<(), EmuError>(EmuError::StepLimit) ==> run_steps(
                old(self).model(),
                u64::MAX as nat,
            ) == Ok::<(CpuModel, bool), EmuError>((final(self).model(), true)),
    {
        self.run_with_callback(|_cpu: &CPU| {})
    }

    /// Runs as `run` does, invoking the observer on the machine before each
    /// fetch. The observer only reads; the machine moves exactly as without
    /// it.
    #[verifier::rlimit(100)]
    pub fn run_with_callback<F: Fn(&CPU)>(&mut self, callback: F) -> (r: Result<(), EmuError>)
        requires
            old(self).wf(),
            forall|cpu: &CPU| #[trigger] call_requires(callback, (cpu,)),
        ensures
            final(self).wf(),
            r is Ok ==> exists|n: nat|
                run_steps(old(self).model(), n) == Ok::<(CpuModel, bool), EmuError>(
                    (final(self).model(), false),
                ),
            r is Err ==> exists|n: nat|
                run_steps(old(self).model(), n) == Ok::<(CpuModel, bool), EmuError>(
                    (final(self).model(), true),
                ),
            r is Err && r->Err_0 != EmuError::StepLimit ==> step_result(final(self).model())
                == Err::<(CpuModel, bool), EmuError>(r->Err_0),
            r == Err::<(), EmuError>(EmuError::StepLimit) ==> run_steps(
                old(self).model(),
                u64::MAX as nat,
            ) == Ok::<(CpuModel, bool), EmuError>((final(self).model(), true)),
    {
        let ghost start = self.model();
        let ghost mut steps_taken: nat = 0nat;
        // The verifier asks every loop for a termination measure; the budget
        // is that measure, far beyond what any machine could execute.
        let mut budget: u64 = u64::MAX;
        loop
            invariant
                self.wf(),
                start == old(self).model(),
                steps_taken + budget == u64::MAX,
                forall|cpu: &CPU| #[trigger] call_requires(callback, (cpu,)),
                run_steps(start, steps_taken) == Ok::<(CpuModel, bool), EmuError>(
                    (self.model(), true),
                ),
            decreases budget,
        {
            callback(&*self);
            if budget == 0 {
                return Err(EmuError::StepLimit);
            }
            budget = budget - 1;
            match self.step() {
                Ok(true) => {
                    proof {
                        steps_taken = steps_taken + 1;
                        assert(run_steps(start, steps_taken) == Ok::<(CpuModel, bool), EmuError>(
                            (self.model(), true),
                        ));
                    }
                },
                Ok(false) => {
                    proof {
                        steps_taken = steps_taken + 1;
                        assert(run_steps(start, steps_taken) == Ok::<(CpuModel, bool), EmuError>(
                            (self.model(), false),
                        ));
                    }
                    return Ok(());
                },
                Err(e) => {
                    return Err(e);
                },
            }
        }
    }

    /// Resets the machine: the index registers and every status flag are
    /// cleared — the accumulator and the stack are not — and the program
    /// counter is seeded from the reset vector at 0xFFFC/0xFFFD.
    pub fn reset(&mut self)
        requires
            old(self).wf(),
        ensures
            final(self).wf(),
            final(self).model() == reset_result(old(self).model()),
    {
        self.index_register_x = 0;
        self.index_register_y = 0;
        self.processor_status.reset_flags();

        self.program_counter = self.read_mem_u16(0xFFFC);
        proof {
            assert(self.model() =~= reset_result(old(self).model()));
        }
    }

    /// Writes a program, byte for byte, into bus RAM starting at the program
    /// origin. The program must fit between the origin and the end of the
    /// RAM window.
    pub fn load_program(&mut self, program: Vec<u8>)
        requires
            old(self).wf(),
            PROGRAM_ORIGIN + program@.len() <= 0x2000,
        ensures
            final(self).wf(),
            final(self).model() == (CpuModel {
                ram: loaded_ram(old(self).bus@, program@, program@.len() as int),
                ..old(self).model()
            }),
    {
        let mut i: usize = 0;
        while i < program.len()
            invariant
                self.wf(),
                i <= program@.len(),
                PROGRAM_ORIGIN + program@.len() <= 0x2000,
                self.model() == (CpuModel {
                    ram: loaded_ram(old(self).bus@, program@, i as int),
                    ..old(self).model()
                }),
            decreases program@.len() - i,
        {
            let addr = PROGRAM_ORIGIN + i as u16;
            self.bus.write_mem_u8(addr, program[i]);
            i = i + 1;
            proof {
                assert(self.model() =~= (CpuModel {
                    ram: loaded_ram(old(self).bus@, program@, i as int),
                    ..old(self).model()
                }));
            }
        }
    }

    /// Loads a program at the origin, resets the machine, points the program
    /// counter at the origin and runs to the break opcode. The outcome is as
    /// for `run`, starting from the booted state.
    pub fn load_and_run_program(&mut self, program: Vec<u8>) -> (r: Result<(), EmuError>)
        requires
            old(self).wf(),
            PROGRAM_ORIGIN + program@.len() <= 0x2000,
        ensures
            final(self).wf(),
            r is Ok ==> exists|n: nat|
                run_steps(boot_state(old(self).model(), program@), n) == Ok::<
                    (CpuModel, bool),
                    EmuError,
                >((final(self).model(), false)),
            r is Err ==> exists|n: nat|
                run_steps(boot_state(old(self).model(), program@), n) == Ok::<
                    (CpuModel, bool),
                    EmuError,
                >((final(self).model(), true)),
            r is Err && r->Err_0 != EmuError::StepLimit ==> step_result(final(self).model())
                == Err::<(CpuModel, bool), EmuError>(r->Err_0),
            r == Err::<(), EmuError>(EmuError::StepLimit) ==> run_steps(
                boot_state(old(self).model(), program@),
                u64::MAX as nat,
            ) == Ok::<(CpuModel, bool), EmuError>((final(self).model(), true)),
    {
        self.load_program(program);
        self.reset();
        self.program_counter = PROGRAM_ORIGIN;
        proof {
            assert(self.model() =~= boot_state(old(self).model(), program@));
        }
        self.run()
    }

}

} // verus!
