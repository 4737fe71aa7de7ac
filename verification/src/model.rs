//! The mathematical model of the machine: a ghost snapshot of the register
//! file together with the bus RAM, the effect of every instruction on it, and
//! the fetch-decode-execute step built from those effects. The executable
//! engine in `cpu` is proved to realize `step_result` exactly, and its run
//! loop to realize a finite iteration of it.

use crate::bus::bus_byte;
use crate::bus::bus_written;
use crate::bus::in_peripheral_window;
use crate::opcodes::AddressingMode;
use crate::opcodes::opcode_len;
use crate::opcodes::opcode_mode;
use crate::opcodes::opcode_recognized;
use crate::processor_status::CARRY_MASK;
use crate::processor_status::NEGATIVE_MASK;
use crate::processor_status::OVERFLOW_MASK;
use crate::processor_status::ZERO_MASK;
use crate::processor_status::DECIMAL_MASK;
use crate::processor_status::INTERRUPT_MASK;
use crate::processor_status::zn_status;
use vstd::prelude::*;
use vstd::wrapping::u16_specs;
use vstd::wrapping::u8_specs;

verus! {

/// How the engine fails. Every failure is fatal to the current run and the
/// machine state is left exactly as it was before the faulting instruction.
#[derive(Debug, Clone, Copy, PartialEq, Eq, Structural)]
pub enum EmuError {
    /// A read or write touched the unimplemented peripheral-register window.
    PeripheralUnsupported { addr: u16 },
    /// The byte fetched as an opcode has no entry in the opcode table. The
    /// engine cannot guess an instruction length, so it cannot skip over it.
    UnrecognizedOpcode { code: u8 },
    /// A 16-bit read was asked for at the last address of the space, where no
    /// second byte follows.
    AddressOverflow { addr: u16 },
    /// The run loop's step budget ran out before the break opcode was
    /// reached. The budget exists as the loop's termination measure; at one
    /// instruction per nanosecond it would take centuries to exhaust.
    StepLimit,
}

/// A snapshot of everything an instruction can observe or change: the
/// registers and the 2 KB of physical RAM behind the mirrored bus window.
/// The stack page base is fixed at 0x01FF; `depth` is how many bytes have
/// been pushed, wrapping modulo 256.
#[verifier::ext_equal]
pub ghost struct CpuModel {
    pub pc: u16,
    pub depth: u8,
    pub a: u8,
    pub x: u8,
    pub y: u8,
    pub status: u8,
    pub ram: Seq<u8>,
}

// ---------------------------------------------------------------------------
// Memory access.
// ---------------------------------------------------------------------------
/// A little-endian word out of two bytes.
pub open spec fn word(lo: u8, hi: u8) -> u16 {
    (lo + 256 * hi) as u16
}

/// The low half of a word.
pub open spec fn low_byte(v: u16) -> u8 {
    (v % 256) as u8
}

/// The high half of a word.
pub open spec fn high_byte(v: u16) -> u8 {
    (v / 256) as u8
}

/// One byte read through the bus: a fault inside the peripheral window, the
/// decoded byte everywhere else.
pub open spec fn read8(ram: Seq<u8>, addr: u16) -> Result<u8, EmuError> {
    if in_peripheral_window(addr) {
        Err(EmuError::PeripheralUnsupported { addr })
    } else {
        Ok(bus_byte(ram, addr))
    }
}

/// One byte written through the bus: a fault inside the peripheral window,
/// the updated RAM everywhere else.
pub open spec fn write8(ram: Seq<u8>, addr: u16, data: u8) -> Result<Seq<u8>, EmuError> {
    if in_peripheral_window(addr) {
        Err(EmuError::PeripheralUnsupported { addr })
    } else {
        Ok(bus_written(ram, addr, data))
    }
}

/// A little-endian word read through the bus: the byte at `pos` is the low
/// half, the byte at `pos + 1` the high half. At the very last address no
/// second byte follows, which is a fault.
pub open spec fn read16(ram: Seq<u8>, pos: u16) -> Result<u16, EmuError> {
    if pos == 0xFFFF {
        Err(EmuError::AddressOverflow { addr: pos })
    } else {
        match read8(ram, pos) {
            Err(e) => Err(e),
            Ok(lo) => match read8(ram, (pos + 1) as u16) {
                Err(e) => Err(e),
                Ok(hi) => Ok(word(lo, hi)),
            },
        }
    }
}

/// A little-endian word read from the zero page, the pointer's second byte
/// wrapping inside the page. Zero-page reads cannot fault.
pub open spec fn zero_page_word(ram: Seq<u8>, p: u8) -> u16 {
    word(bus_byte(ram, p as u16), bus_byte(ram, u8_specs::wrapping_add(p, 1) as u16))
}

// ---------------------------------------------------------------------------
// The stack: a descending region of the fixed page ending at 0x01FF.
// ---------------------------------------------------------------------------
/// Where the next byte would be pushed: `depth` bytes below the page base.
pub open spec fn stack_slot(depth: u8) -> int {
    0x1FF - depth
}

/// The depth after a push.
pub open spec fn deeper(depth: u8) -> u8 {
    u8_specs::wrapping_add(depth, 1)
}

/// The depth after a pop.
pub open spec fn shallower(depth: u8) -> u8 {
    u8_specs::wrapping_sub(depth, 1)
}

/// The machine after one byte is pushed: the byte is written at the current
/// slot, then the stack deepens by one.
pub open spec fn pushed8(m: CpuModel, data: u8) -> CpuModel {
    CpuModel { ram: m.ram.update(stack_slot(m.depth), data), depth: deeper(m.depth), ..m }
}

/// The byte a pop would yield: the most recently pushed one.
pub open spec fn top_of_stack(m: CpuModel) -> u8 {
    m.ram[stack_slot(shallower(m.depth))]
}

/// The machine after one byte is popped. Popping only moves the depth; the
/// byte itself stays in RAM.
pub open spec fn popped8(m: CpuModel) -> CpuModel {
    CpuModel { depth: shallower(m.depth), ..m }
}

/// The machine after a 16-bit push: high byte first, then the low byte.
pub open spec fn pushed16(m: CpuModel, data: u16) -> CpuModel {
    pushed8(pushed8(m, high_byte(data)), low_byte(data))
}

/// The word a 16-bit pop would yield: the low byte comes off first.
pub open spec fn top16(m: CpuModel) -> u16 {
    word(top_of_stack(m), top_of_stack(popped8(m)))
}

/// The machine after a 16-bit pop.
pub open spec fn popped16(m: CpuModel) -> CpuModel {
    popped8(popped8(m))
}

// ---------------------------------------------------------------------------
// Register writes. Every dedicated register setter refreshes the Zero and
// Negative flags from the new value.
// ---------------------------------------------------------------------------
/// The machine after the accumulator setter ran with `data`.
pub open spec fn with_a(m: CpuModel, data: u8) -> CpuModel {
    CpuModel { a: data, status: zn_status(m.status, data), ..m }
}

/// The machine after the X setter ran with `data`.
pub open spec fn with_x(m: CpuModel, data: u8) -> CpuModel {
    CpuModel { x: data, status: zn_status(m.status, data), ..m }
}

/// The machine after the Y setter ran with `data`.
pub open spec fn with_y(m: CpuModel, data: u8) -> CpuModel {
    CpuModel { y: data, status: zn_status(m.status, data), ..m }
}

/// The carry flag as the 0-or-1 summand of an addition.
pub open spec fn carry_bit(status: u8) -> int {
    if status & CARRY_MASK != 0 {
        1
    } else {
        0
    }
}

/// Add-with-carry into the accumulator: the 8-bit sum of accumulator,
/// operand and incoming carry. Carry is set exactly when the full sum
/// exceeds 0xFF; Overflow exactly when both summands share a sign that the
/// result does not (bit 7 standing for the sign); Zero and Negative follow
/// the result through the accumulator setter.
pub open spec fn adc_result(m: CpuModel, data: u8) -> CpuModel {
    let total = m.a + data + carry_bit(m.status);
    let result = (total % 256) as u8;
    let s1 = if total > 0xFF {
        m.status | CARRY_MASK
    } else {
        m.status & !CARRY_MASK
    };
    let same_sign = (data >= 0x80) == (m.a >= 0x80);
    let sign_flipped = (result >= 0x80) != (m.a >= 0x80);
    let s2 = if same_sign && sign_flipped {
        s1 | OVERFLOW_MASK
    } else {
        s1 & !OVERFLOW_MASK
    };
    with_a(CpuModel { status: s2, ..m }, result)
}

/// Compare of register value `a` against operand `b`, as unsigned bytes:
/// below clears Zero and Carry; equal sets both and clears Negative; above
/// clears Zero and sets Carry. When the two differ, Negative mirrors bit 7
/// of the register.
pub open spec fn compare_status(status: u8, a: u8, b: u8) -> u8 {
    if a < b {
        let s1 = (status & !ZERO_MASK) & !CARRY_MASK;
        if a >= 0x80 {
            s1 | NEGATIVE_MASK
        } else {
            s1 & !NEGATIVE_MASK
        }
    } else if a == b {
        ((status | ZERO_MASK) | CARRY_MASK) & !NEGATIVE_MASK
    } else {
        let s1 = (status & !ZERO_MASK) | CARRY_MASK;
        if a >= 0x80 {
            s1 | NEGATIVE_MASK
        } else {
            s1 & !NEGATIVE_MASK
        }
    }
}

// ---------------------------------------------------------------------------
// Operand resolution, mode by mode. The program counter already sits on the
// first operand byte; resolution never moves it.
// ---------------------------------------------------------------------------
/// Whether a mode resolves to a memory location at all. The accumulator form
/// and the operand-free form bypass resolution; asking for it is a
/// programming error, excluded by precondition.
pub open spec fn addressable(mode: AddressingMode) -> bool {
    !(mode is NoneAddressing || mode is Accumulator)
}

/// The location an addressable mode resolves to, reading operand bytes
/// through the bus at the program counter.
pub open spec fn operand_location(m: CpuModel, mode: AddressingMode) -> Result<u16, EmuError> {
    match mode {
        // The operand is the literal byte at the program counter; branches
        // read their displacement the same way.
        AddressingMode::Immediate => Ok(m.pc),
        AddressingMode::Relative => Ok(m.pc),
        AddressingMode::ZeroPage => match read8(m.ram, m.pc) {
            Ok(b) => Ok(b as u16),
            Err(e) => Err(e),
        },
        // The index is added inside the zero page: an 8-bit wrapping sum
        // that never carries into the high byte.
        AddressingMode::ZeroPageX => match read8(m.ram, m.pc) {
            Ok(b) => Ok(u8_specs::wrapping_add(b, m.x) as u16),
            Err(e) => Err(e),
        },
        AddressingMode::ZeroPageY => match read8(m.ram, m.pc) {
            Ok(b) => Ok(u8_specs::wrapping_add(b, m.y) as u16),
            Err(e) => Err(e),
        },
        AddressingMode::Absolute => read16(m.ram, m.pc),
        // Here the index may carry across a page: a 16-bit wrapping sum.
        AddressingMode::AbsoluteX => match read16(m.ram, m.pc) {
            Ok(w) => Ok(u16_specs::wrapping_add(w, m.x as u16)),
            Err(e) => Err(e),
        },
        AddressingMode::AbsoluteY => match read16(m.ram, m.pc) {
            Ok(w) => Ok(u16_specs::wrapping_add(w, m.y as u16)),
            Err(e) => Err(e),
        },
        // The pointer word names the target word, with the hardware's
        // page-boundary bug: when the pointer's low byte is 0xFF, the high
        // byte of the target is fetched from the start of the pointer's own
        // page rather than from the next page.
        AddressingMode::Indirect => match read16(m.ram, m.pc) {
            Ok(ptr) => if ptr % 256 == 0xFF {
                match read8(m.ram, ptr) {
                    Ok(lo) => match read8(m.ram, (ptr - 0xFF) as u16) {
                        Ok(hi) => Ok(word(lo, hi)),
                        Err(e) => Err(e),
                    },
                    Err(e) => Err(e),
                }
            } else {
                read16(m.ram, ptr)
            },
            Err(e) => Err(e),
        },
        // The operand byte plus X names a zero-page pointer; both pointer
        // bytes wrap inside the zero page.
        AddressingMode::IndirectX => match read8(m.ram, m.pc) {
            Ok(b) => Ok(zero_page_word(m.ram, u8_specs::wrapping_add(b, m.x))),
            Err(e) => Err(e),
        },
        // The operand byte names a zero-page pointer; Y is then added to the
        // pointed-to word with 16-bit wrap.
        AddressingMode::IndirectY => match read8(m.ram, m.pc) {
            Ok(b) => Ok(u16_specs::wrapping_add(zero_page_word(m.ram, b), m.y as u16)),
            Err(e) => Err(e),
        },
        AddressingMode::NoneAddressing => arbitrary(),
        AddressingMode::Accumulator => arbitrary(),
    }
}

/// The operand byte itself: the resolved location read through the bus.
pub open spec fn operand_byte(m: CpuModel, mode: AddressingMode) -> Result<u8, EmuError> {
    match operand_location(m, mode) {
        Ok(addr) => read8(m.ram, addr),
        Err(e) => Err(e),
    }
}

// ---------------------------------------------------------------------------
// Instruction effects. Each yields the machine after the handler ran, or the
// fault it stopped on — in which case the machine is unchanged.
// ---------------------------------------------------------------------------
/// Load into the accumulator.
pub open spec fn lda_result(m: CpuModel, mode: AddressingMode) -> Result<CpuModel, EmuError> {
    match operand_byte(m, mode) {
        Ok(v) => Ok(with_a(m, v)),
        Err(e) => Err(e),
    }
}

/// Load into the X register.
pub open spec fn ldx_result(m: CpuModel, mode: AddressingMode) -> Result<CpuModel, EmuError> {
    match operand_byte(m, mode) {
        Ok(v) => Ok(with_x(m, v)),
        Err(e) => Err(e),
    }
}

/// Load into the Y register.
pub open spec fn ldy_result(m: CpuModel, mode: AddressingMode) -> Result<CpuModel, EmuError> {
    match operand_byte(m, mode) {
        Ok(v) => Ok(with_y(m, v)),
        Err(e) => Err(e),
    }
}

/// Add the operand and the carry into the accumulator.
pub open spec fn adc_op_result(m: CpuModel, mode: AddressingMode) -> Result<CpuModel, EmuError> {
    match operand_byte(m, mode) {
        Ok(v) => Ok(adc_result(m, v)),
        Err(e) => Err(e),
    }
}

/// Subtract with carry: add-with-carry of the operand's bitwise complement,
/// which is `255 - operand`.
pub open spec fn sbc_op_result(m: CpuModel, mode: AddressingMode) -> Result<CpuModel, EmuError> {
    match operand_byte(m, mode) {
        Ok(v) => Ok(adc_result(m, (255 - v) as u8)),
        Err(e) => Err(e),
    }
}

/// Bitwise AND of accumulator and operand, through the accumulator setter.
pub open spec fn and_result(m: CpuModel, mode: AddressingMode) -> Result<CpuModel, EmuError> {
    match operand_byte(m, mode) {
        Ok(v) => Ok(with_a(m, m.a & v)),
        Err(e) => Err(e),
    }
}

/// Bitwise OR of accumulator and operand.
pub open spec fn ora_result(m: CpuModel, mode: AddressingMode) -> Result<CpuModel, EmuError> {
    match operand_byte(m, mode) {
        Ok(v) => Ok(with_a(m, m.a | v)),
        Err(e) => Err(e),
    }
}

/// Bitwise exclusive OR of accumulator and operand.
pub open spec fn eor_result(m: CpuModel, mode: AddressingMode) -> Result<CpuModel, EmuError> {
    match operand_byte(m, mode) {
        Ok(v) => Ok(with_a(m, m.a ^ v)),
        Err(e) => Err(e),
    }
}

/// The bit test: the AND of accumulator and operand is discarded, but Zero
/// reports whether it was zero; Negative mirrors bit 6 of the raw operand
/// and Overflow bit 7 of the raw operand, never bits of the AND result.
/// A caution for maintainers: hardware references document the swapped
/// assignment — Negative from bit 7 and Overflow from bit 6 — but this
/// engine's own behavior is the pair above, and its test suite pins it;
/// swapping would be a deliberate compatibility break.
pub open spec fn bit_result(m: CpuModel, mode: AddressingMode) -> Result<CpuModel, EmuError> {
    match operand_byte(m, mode) {
        Ok(v) => {
            let s1 = if m.a & v == 0 {
                m.status | ZERO_MASK
            } else {
                m.status & !ZERO_MASK
            };
            let s2 = if v & 0x40u8 != 0 {
                s1 | NEGATIVE_MASK
            } else {
                s1 & !NEGATIVE_MASK
            };
            let s3 = if v >= 0x80 {
                s2 | OVERFLOW_MASK
            } else {
                s2 & !OVERFLOW_MASK
            };
            Ok(CpuModel { status: s3, ..m })
        },
        Err(e) => Err(e),
    }
}

/// Compare the accumulator with the operand.
pub open spec fn cmp_result(m: CpuModel, mode: AddressingMode) -> Result<CpuModel, EmuError> {
    match operand_byte(m, mode) {
        Ok(v) => Ok(CpuModel { status: compare_status(m.status, m.a, v), ..m }),
        Err(e) => Err(e),
    }
}

/// Compare the X register with the operand.
pub open spec fn cpx_result(m: CpuModel, mode: AddressingMode) -> Result<CpuModel, EmuError> {
    match operand_byte(m, mode) {
        Ok(v) => Ok(CpuModel { status: compare_status(m.status, m.x, v), ..m }),
        Err(e) => Err(e),
    }
}

/// Compare the Y register with the operand.
pub open spec fn cpy_result(m: CpuModel, mode: AddressingMode) -> Result<CpuModel, EmuError> {
    match operand_byte(m, mode) {
        Ok(v) => Ok(CpuModel { status: compare_status(m.status, m.y, v), ..m }),
        Err(e) => Err(e),
    }
}

/// Shift left by one: the shifted-out bit 7 lands in Carry, bit 0 fills with
/// zero. The accumulator form; Zero and Negative follow the result.
pub open spec fn asl_acc_result(m: CpuModel) -> CpuModel {
    let result = ((2 * m.a) % 256) as u8;
    let s1 = if m.a >= 0x80 {
        m.status | CARRY_MASK
    } else {
        m.status & !CARRY_MASK
    };
    with_a(CpuModel { status: s1, ..m }, result)
}

/// Shift left of a memory byte; Carry from the shifted-out bit 7, Zero and
/// Negative from the written-back result.
pub open spec fn asl_mem_result(m: CpuModel, mode: AddressingMode) -> Result<CpuModel, EmuError> {
    match operand_location(m, mode) {
        Ok(addr) => match read8(m.ram, addr) {
            Ok(v) => {
                let result = ((2 * v) % 256) as u8;
                let s1 = if v >= 0x80 {
                    m.status | CARRY_MASK
                } else {
                    m.status & !CARRY_MASK
                };
                match write8(m.ram, addr, result) {
                    Ok(ram2) => Ok(
                        CpuModel { ram: ram2, status: zn_status(s1, result), ..m },
                    ),
                    Err(e) => Err(e),
                }
            },
            Err(e) => Err(e),
        },
        Err(e) => Err(e),
    }
}

/// Shift right by one: the shifted-out bit 0 lands in Carry, bit 7 fills
/// with zero. The accumulator form.
pub open spec fn lsr_acc_result(m: CpuModel) -> CpuModel {
    let result = m.a / 2;
    let s1 = if m.a % 2 == 1 {
        m.status | CARRY_MASK
    } else {
        m.status & !CARRY_MASK
    };
    with_a(CpuModel { status: s1, ..m }, result)
}

/// Shift right of a memory byte.
pub open spec fn lsr_mem_result(m: CpuModel, mode: AddressingMode) -> Result<CpuModel, EmuError> {
    match operand_location(m, mode) {
        Ok(addr) => match read8(m.ram, addr) {
            Ok(v) => {
                let result = v / 2;
                let s1 = if v % 2 == 1 {
                    m.status | CARRY_MASK
                } else {
                    m.status & !CARRY_MASK
                };
                match write8(m.ram, addr, result) {
                    Ok(ram2) => Ok(
                        CpuModel { ram: ram2, status: zn_status(s1, result), ..m },
                    ),
                    Err(e) => Err(e),
                }
            },
            Err(e) => Err(e),
        },
        Err(e) => Err(e),
    }
}

/// Rotate left by one: Carry is taken from the shifted-out bit 7 while the
/// old Carry fills bit 0. The accumulator form.
pub open spec fn rol_acc_result(m: CpuModel) -> CpuModel {
    let result = ((2 * m.a) % 256 + carry_bit(m.status)) as u8;
    let s1 = if m.a >= 0x80 {
        m.status | CARRY_MASK
    } else {
        m.status & !CARRY_MASK
    };
    with_a(CpuModel { status: s1, ..m }, result)
}

/// Rotate left of a memory byte.
pub open spec fn rol_mem_result(m: CpuModel, mode: AddressingMode) -> Result<CpuModel, EmuError> {
    match operand_location(m, mode) {
        Ok(addr) => match read8(m.ram, addr) {
            Ok(v) => {
                let result = ((2 * v) % 256 + carry_bit(m.status)) as u8;
                let s1 = if v >= 0x80 {
                    m.status | CARRY_MASK
                } else {
                    m.status & !CARRY_MASK
                };
                match write8(m.ram, addr, result) {
                    Ok(ram2) => Ok(
                        CpuModel { ram: ram2, status: zn_status(s1, result), ..m },
                    ),
                    Err(e) => Err(e),
                }
            },
            Err(e) => Err(e),
        },
        Err(e) => Err(e),
    }
}

/// Rotate right by one: Carry is taken from the shifted-out bit 0 while the
/// old Carry fills bit 7. The accumulator form.
pub open spec fn ror_acc_result(m: CpuModel) -> CpuModel {
    let result = (m.a / 2 + 128 * carry_bit(m.status)) as u8;
    let s1 = if m.a % 2 == 1 {
        m.status | CARRY_MASK
    } else {
        m.status & !CARRY_MASK
    };
    with_a(CpuModel { status: s1, ..m }, result)
}

/// Rotate right of a memory byte.
pub open spec fn ror_mem_result(m: CpuModel, mode: AddressingMode) -> Result<CpuModel, EmuError> {
    match operand_location(m, mode) {
        Ok(addr) => match read8(m.ram, addr) {
            Ok(v) => {
                let result = (v / 2 + 128 * carry_bit(m.status)) as u8;
                let s1 = if v % 2 == 1 {
                    m.status | CARRY_MASK
                } else {
                    m.status & !CARRY_MASK
                };
                match write8(m.ram, addr, result) {
                    Ok(ram2) => Ok(
                        CpuModel { ram: ram2, status: zn_status(s1, result), ..m },
                    ),
                    Err(e) => Err(e),
                }
            },
            Err(e) => Err(e),
        },
        Err(e) => Err(e),
    }
}

/// Increment a memory byte, wrapping, Zero and Negative from the new value.
pub open spec fn inc_result(m: CpuModel, mode: AddressingMode) -> Result<CpuModel, EmuError> {
    match operand_location(m, mode) {
        Ok(addr) => match read8(m.ram, addr) {
            Ok(v) => {
                let result = u8_specs::wrapping_add(v, 1);
                match write8(m.ram, addr, result) {
                    Ok(ram2) => Ok(
                        CpuModel { ram: ram2, status: zn_status(m.status, result), ..m },
                    ),
                    Err(e) => Err(e),
                }
            },
            Err(e) => Err(e),
        },
        Err(e) => Err(e),
    }
}

/// Decrement a memory byte, wrapping.
pub open spec fn dec_result(m: CpuModel, mode: AddressingMode) -> Result<CpuModel, EmuError> {
    match operand_location(m, mode) {
        Ok(addr) => match read8(m.ram, addr) {
            Ok(v) => {
                let result = u8_specs::wrapping_sub(v, 1);
                match write8(m.ram, addr, result) {
                    Ok(ram2) => Ok(
                        CpuModel { ram: ram2, status: zn_status(m.status, result), ..m },
                    ),
                    Err(e) => Err(e),
                }
            },
            Err(e) => Err(e),
        },
        Err(e) => Err(e),
    }
}

/// Store the accumulator at the resolved location; no flag moves.
pub open spec fn sta_result(m: CpuModel, mode: AddressingMode) -> Result<CpuModel, EmuError> {
    match operand_location(m, mode) {
        Ok(addr) => match write8(m.ram, addr, m.a) {
            Ok(ram2) => Ok(CpuModel { ram: ram2, ..m }),
            Err(e) => Err(e),
        },
        Err(e) => Err(e),
    }
}

/// Store the X register.
pub open spec fn stx_result(m: CpuModel, mode: AddressingMode) -> Result<CpuModel, EmuError> {
    match operand_location(m, mode) {
        Ok(addr) => match write8(m.ram, addr, m.x) {
            Ok(ram2) => Ok(CpuModel { ram: ram2, ..m }),
            Err(e) => Err(e),
        },
        Err(e) => Err(e),
    }
}

/// Store the Y register.
pub open spec fn sty_result(m: CpuModel, mode: AddressingMode) -> Result<CpuModel, EmuError> {
    match operand_location(m, mode) {
        Ok(addr) => match write8(m.ram, addr, m.y) {
            Ok(ram2) => Ok(CpuModel { ram: ram2, ..m }),
            Err(e) => Err(e),
        },
        Err(e) => Err(e),
    }
}

/// A displacement byte sign-extended to the 16-bit space: values of 0x80 and
/// above stand for their value minus 256, which the wrapping sum below
/// realizes as adding `0xFF00 + d`.
pub open spec fn sign_extended(d: u8) -> u16 {
    if d < 0x80 {
        d as u16
    } else {
        (0xFF00 + d) as u16
    }
}

/// Where a taken branch lands: past the displacement byte, then the signed
/// displacement, both sums wrapping.
pub open spec fn branch_target(pc: u16, d: u8) -> u16 {
    u16_specs::wrapping_add(u16_specs::wrapping_add(pc, 1), sign_extended(d))
}

/// A branch: when the tested condition fails nothing moves (the run loop's
/// generic advance then skips the displacement byte); when it holds, the
/// displacement byte at the program counter is read and the program counter
/// moves to the target.
pub open spec fn branch_result(m: CpuModel, taken: bool) -> Result<CpuModel, EmuError> {
    if !taken {
        Ok(m)
    } else {
        match read8(m.ram, m.pc) {
            Ok(d) => Ok(CpuModel { pc: branch_target(m.pc, d), ..m }),
            Err(e) => Err(e),
        }
    }
}

/// The absolute jump: the program counter is loaded with the operand word.
pub open spec fn jmp_absolute_result(m: CpuModel) -> Result<CpuModel, EmuError> {
    match read16(m.ram, m.pc) {
        Ok(target) => Ok(CpuModel { pc: target, ..m }),
        Err(e) => Err(e),
    }
}

/// The indirect jump, through the pointer with the page-boundary bug.
pub open spec fn jmp_indirect_result(m: CpuModel) -> Result<CpuModel, EmuError> {
    match operand_location(m, AddressingMode::Indirect) {
        Ok(target) => Ok(CpuModel { pc: target, ..m }),
        Err(e) => Err(e),
    }
}

/// Call a subroutine: the address of the call's last byte — one past the
/// program counter, which sits on the operand — is pushed high byte first,
/// then the program counter is loaded with the operand word.
pub open spec fn jsr_result(m: CpuModel) -> Result<CpuModel, EmuError> {
    match read16(m.ram, m.pc) {
        Ok(target) => Ok(
            CpuModel { pc: target, ..pushed16(m, u16_specs::wrapping_add(m.pc, 1)) },
        ),
        Err(e) => Err(e),
    }
}

/// Return from a subroutine: a word is popped and the program counter is
/// loaded with that word plus one.
pub open spec fn rts_result(m: CpuModel) -> CpuModel {
    CpuModel { pc: u16_specs::wrapping_add(top16(m), 1), ..popped16(m) }
}

/// Return from an interrupt: the status byte is popped first, then the
/// program counter, low byte first.
pub open spec fn rti_result(m: CpuModel) -> CpuModel {
    let flags = top_of_stack(m);
    let m1 = popped8(m);
    let lo = top_of_stack(m1);
    let m2 = popped8(m1);
    let hi = top_of_stack(m2);
    let m3 = popped8(m2);
    CpuModel { status: flags, pc: word(lo, hi), ..m3 }
}

// ---------------------------------------------------------------------------
// Dispatch: the effect of one recognized, non-break instruction, given the
// machine with the program counter already moved past the opcode byte.
// ---------------------------------------------------------------------------
/// The effect of the instruction `code` names. Dispatch is on the raw byte
/// value; the addressing mode comes from the opcode table.
pub open spec fn instruction_result(m: CpuModel, code: u8) -> Result<CpuModel, EmuError> {
    let mode = opcode_mode(code);
    match code {
        // Loads.
        0xA9 | 0xA5 | 0xB5 | 0xAD | 0xBD | 0xB9 | 0xA1 | 0xB1 => lda_result(m, mode),
        0xA2 | 0xA6 | 0xB6 | 0xAE | 0xBE => ldx_result(m, mode),
        0xA0 | 0xA4 | 0xB4 | 0xAC | 0xBC => ldy_result(m, mode),
        // Arithmetic.
        0x69 | 0x65 | 0x75 | 0x6D | 0x7D | 0x79 | 0x61 | 0x71 => adc_op_result(m, mode),
        0xE9 | 0xE5 | 0xF5 | 0xED | 0xFD | 0xF9 | 0xE1 | 0xF1 => sbc_op_result(m, mode),
        // Bitwise operations and shifts.
        0x29 | 0x25 | 0x35 | 0x2D | 0x3D | 0x39 | 0x21 | 0x31 => and_result(m, mode),
        0x4A => Ok(lsr_acc_result(m)),
        0x46 | 0x56 | 0x4E | 0x5E => lsr_mem_result(m, mode),
        0x0A => Ok(asl_acc_result(m)),
        0x06 | 0x16 | 0x0E | 0x1E => asl_mem_result(m, mode),
        0x09 | 0x05 | 0x15 | 0x0D | 0x1D | 0x19 | 0x01 | 0x11 => ora_result(m, mode),
        0x49 | 0x45 | 0x55 | 0x4D | 0x5D | 0x59 | 0x41 | 0x51 => eor_result(m, mode),
        // Branches.
        0xB0 => branch_result(m, m.status & CARRY_MASK != 0),
        0xF0 => branch_result(m, m.status & ZERO_MASK != 0),
        0xD0 => branch_result(m, m.status & ZERO_MASK == 0),
        0x10 => branch_result(m, m.status & NEGATIVE_MASK == 0),
        0x30 => branch_result(m, m.status & NEGATIVE_MASK != 0),
        0x50 => branch_result(m, m.status & OVERFLOW_MASK == 0),
        0x70 => branch_result(m, m.status & OVERFLOW_MASK != 0),
        0x90 => branch_result(m, m.status & CARRY_MASK == 0),
        // Jumps and subroutines.
        0x4C => jmp_absolute_result(m),
        0x6C => jmp_indirect_result(m),
        0x20 => jsr_result(m),
        0x60 => Ok(rts_result(m)),
        // Flag sets and clears.
        0x18 => Ok(CpuModel { status: m.status & !CARRY_MASK, ..m }),
        0xD8 => Ok(CpuModel { status: m.status & !DECIMAL_MASK, ..m }),
        0x58 => Ok(CpuModel { status: m.status & !INTERRUPT_MASK, ..m }),
        0xB8 => Ok(CpuModel { status: m.status & !OVERFLOW_MASK, ..m }),
        0x38 => Ok(CpuModel { status: m.status | CARRY_MASK, ..m }),
        0xF8 => Ok(CpuModel { status: m.status | DECIMAL_MASK, ..m }),
        0x78 => Ok(CpuModel { status: m.status | INTERRUPT_MASK, ..m }),
        // Compares and the bit test.
        0x24 | 0x2C => bit_result(m, mode),
        0xC9 | 0xC5 | 0xD5 | 0xCD | 0xDD | 0xD9 | 0xC1 | 0xD1 => cmp_result(m, mode),
        0xE0 | 0xE4 | 0xEC => cpx_result(m, mode),
        0xC0 | 0xC4 | 0xCC => cpy_result(m, mode),
        // Transfers. The two stack-reading forms copy the byte on top of the
        // stack into a register without moving the stack.
        0xAA => Ok(with_x(m, m.a)),
        0xA8 => Ok(with_y(m, m.a)),
        0xBA => Ok(with_x(m, top_of_stack(m))),
        0x8A => Ok(with_a(m, m.x)),
        0x9A => Ok(with_y(m, top_of_stack(m))),
        0x98 => Ok(with_a(m, m.y)),
        // Increments and decrements.
        0xE6 | 0xF6 | 0xEE | 0xFE => inc_result(m, mode),
        0xE8 => Ok(with_x(m, u8_specs::wrapping_add(m.x, 1))),
        0xC8 => Ok(with_y(m, u8_specs::wrapping_add(m.y, 1))),
        0xC6 | 0xD6 | 0xCE | 0xDE => dec_result(m, mode),
        0xCA => Ok(with_x(m, u8_specs::wrapping_sub(m.x, 1))),
        0x88 => Ok(with_y(m, u8_specs::wrapping_sub(m.y, 1))),
        // Stack pushes and pops. The pop into the accumulator moves no flag.
        0x48 => Ok(pushed8(m, m.a)),
        0x08 => Ok(CpuModel { a: top_of_stack(m), ..popped8(m) }),
        0x28 => Ok(CpuModel { status: top_of_stack(m), ..popped8(m) }),
        // Rotates.
        0x2A => Ok(rol_acc_result(m)),
        0x26 | 0x36 | 0x2E | 0x3E => rol_mem_result(m, mode),
        0x6A => Ok(ror_acc_result(m)),
        0x66 | 0x76 | 0x6E | 0x7E => ror_mem_result(m, mode),
        // Stores.
        0x85 | 0x95 | 0x8D | 0x9D | 0x99 | 0x81 | 0x91 => sta_result(m, mode),
        0x84 | 0x94 | 0x8C => sty_result(m, mode),
        0x86 | 0x96 | 0x8E => stx_result(m, mode),
        // No-op.
        0xEA => Ok(m),
        // Return from interrupt.
        0x40 => Ok(rti_result(m)),
        _ => Err(EmuError::UnrecognizedOpcode { code }),
    }
}

// ---------------------------------------------------------------------------
// The step: fetch, decode, execute, advance.
// ---------------------------------------------------------------------------
/// One transition of the run loop. The opcode byte is fetched at the program
/// counter; an unlisted byte is a fault. The break opcode halts the machine
/// (the second component turns false) with the program counter just past the
/// opcode. Any other instruction executes with the program counter moved
/// past the opcode byte; if the handler leaves the program counter where it
/// was, the generic advance then skips the instruction's operand bytes.
pub open spec fn step_result(m: CpuModel) -> Result<(CpuModel, bool), EmuError> {
    match read8(m.ram, m.pc) {
        Err(e) => Err(e),
        Ok(code) => if !opcode_recognized(code) {
            Err(EmuError::UnrecognizedOpcode { code })
        } else if code == 0x00 {
            Ok((CpuModel { pc: u16_specs::wrapping_add(m.pc, 1), ..m }, false))
        } else {
            let m1 = CpuModel { pc: u16_specs::wrapping_add(m.pc, 1), ..m };
            match instruction_result(m1, code) {
                Err(e) => Err(e),
                Ok(m2) => {
                    let m3 = if m2.pc == m1.pc {
                        CpuModel {
                            pc: u16_specs::wrapping_add(m2.pc, (opcode_len(code) - 1) as u16),
                            ..m2
                        }
                    } else {
                        m2
                    };
                    Ok((m3, true))
                },
            }
        },
    }
}

/// `n` transitions of the run loop: stepping stops at a halt or a fault and
/// the outcome then stands for every larger `n`.
pub open spec fn run_steps(m: CpuModel, n: nat) -> Result<(CpuModel, bool), EmuError>
    decreases n,
{
    if n == 0 {
        Ok((m, true))
    } else {
        match run_steps(m, (n - 1) as nat) {
            Ok((m2, true)) => step_result(m2),
            halted_or_fault => halted_or_fault,
        }
    }
}

/// How a handler's outcome relates the machine before the call, the machine
/// after it and the returned result: on success the machine is exactly the
/// effect's; on a fault the error is handed back and nothing has moved.
pub open spec fn outcome(
    pre: CpuModel,
    post: CpuModel,
    r: Result<(), EmuError>,
    effect: Result<CpuModel, EmuError>,
) -> bool {
    match effect {
        Ok(m2) => r is Ok && post == m2,
        Err(e) => r == Err::<(), EmuError>(e) && post == pre,
    }
}

// ---------------------------------------------------------------------------
// Whole-machine operations outside the run loop.
// ---------------------------------------------------------------------------
/// The machine after a reset: the index registers and every status flag are
/// cleared — the accumulator is not — and the program counter is seeded from
/// the reset vector at 0xFFFC/0xFFFD, read little-endian through the bus.
pub open spec fn reset_result(m: CpuModel) -> CpuModel {
    CpuModel {
        x: 0,
        y: 0,
        status: 0,
        pc: word(bus_byte(m.ram, 0xFFFC), bus_byte(m.ram, 0xFFFD)),
        ..m
    }
}

/// Where programs are loaded.
pub const PROGRAM_ORIGIN: u16 = 0x0600;

/// The RAM after the first `n` program bytes have been written, in order,
/// starting at the program origin; a later write to an aliased address wins.
pub open spec fn loaded_ram(ram: Seq<u8>, program: Seq<u8>, n: int) -> Seq<u8>
    decreases n,
{
    if n <= 0 {
        ram
    } else {
        bus_written(
            loaded_ram(ram, program, n - 1),
            (PROGRAM_ORIGIN + n - 1) as u16,
            program[n - 1],
        )
    }
}

/// A program short enough not to wrap through the mirror — at most 0x200
/// bytes, so that origin plus length stays inside one 2 KB image — lands in
/// RAM verbatim: its first `n` bytes sit in order at the origin and every
/// other byte is untouched.
pub proof fn lemma_loaded_ram_verbatim(ram: Seq<u8>, program: Seq<u8>, n: int)
    requires
        ram.len() == 0x800,
        0 <= n <= program.len(),
        PROGRAM_ORIGIN + program.len() <= 0x800,
    ensures
        loaded_ram(ram, program, n).len() == ram.len(),
        forall|k: int|
            0 <= k < n ==> loaded_ram(ram, program, n)[PROGRAM_ORIGIN + k] == program[k],
        forall|j: int|
            0 <= j < ram.len() && !(PROGRAM_ORIGIN <= j < PROGRAM_ORIGIN + n) ==> loaded_ram(
                ram,
                program,
                n,
            )[j] == ram[j],
    decreases n,
{
    if n > 0 {
        lemma_loaded_ram_verbatim(ram, program, n - 1);
    }
}

/// The machine just before a loaded program runs: the program bytes written
/// at the origin, the registers reset, and the program counter pointed at the
/// origin.
pub open spec fn boot_state(m: CpuModel, program: Seq<u8>) -> CpuModel {
    CpuModel {
        pc: PROGRAM_ORIGIN,
        ..reset_result(CpuModel { ram: loaded_ram(m.ram, program, program.len() as int), ..m })
    }
}

// ---------------------------------------------------------------------------
// Stated laws of the model.
// ---------------------------------------------------------------------------
/// Pushing a 16-bit value and popping 16 bits yields the value unchanged,
/// and the net stack depth across the balanced pair is identical.
pub proof fn lemma_stack_round_trip(m: CpuModel, v: u16)
    requires
        m.ram.len() == 0x800,
    ensures
        top16(pushed16(m, v)) == v,
        popped16(pushed16(m, v)).depth == m.depth,
{
    let p = pushed16(m, v);
    assert(stack_slot(m.depth) != stack_slot(deeper(m.depth)));
    assert(top_of_stack(p) == low_byte(v));
    assert(top_of_stack(popped8(p)) == high_byte(v));
    assert(word(low_byte(v), high_byte(v)) == v) by {
        assert(v % 256 + 256 * (v / 256) == v) by (nonlinear_arith);
    }
}

/// The signed reading of a branch displacement: the target is the program
/// counter past the displacement byte, plus the displacement taken as a
/// two's-complement signed byte, all modulo the 16-bit space.
pub proof fn lemma_branch_target_signed(pc: u16, d: u8)
    ensures
        d < 0x80 ==> branch_target(pc, d) == (pc + 1 + d) % 0x10000,
        d >= 0x80 ==> branch_target(pc, d) == (pc + 1 + d - 256) % 0x10000,
{
    let t = branch_target(pc, d);
    let mid = u16_specs::wrapping_add(pc, 1);
    if d < 0x80 {
        assert((pc + 1 + d) % 0x10000 == t) by (nonlinear_arith)
            requires
                t == if mid + d > 0xFFFF {
                    (mid + d - 0x10000) as u16
                } else {
                    (mid + d) as u16
                },
                mid == if pc + 1 > 0xFFFF {
                    (pc + 1 - 0x10000) as u16
                } else {
                    (pc + 1) as u16
                },
                d < 0x80,
        ;
    } else {
        assert((pc + 1 + d - 256) % 0x10000 == t) by (nonlinear_arith)
            requires
                t == if mid + (0xFF00 + d) > 0xFFFF {
                    (mid + (0xFF00 + d) - 0x10000) as u16
                } else {
                    (mid + (0xFF00 + d)) as u16
                },
                mid == if pc + 1 > 0xFFFF {
                    (pc + 1 - 0x10000) as u16
                } else {
                    (pc + 1) as u16
                },
                d >= 0x80,
        ;
    }
}

} // verus!
