//! The opcode table: a static mapping from each recognized opcode byte to its
//! metadata — display mnemonic, instruction length in bytes, base cycle count
//! and addressing mode. The table is consulted by the execution engine for
//! dispatch metadata only; control flow dispatches on the raw byte value.
//!
//! `opcode_entry` is the table's mathematical statement, `opcode_lookup` the
//! executable lookup proved to agree with it entry by entry. Each opcode byte
//! maps to exactly one entry; an unlisted byte is a lookup failure that the
//! engine reports as a fault.

use vstd::prelude::*;

verus! {

/// The ways an instruction can name the data it works on.
#[derive(Debug, Clone, Copy)]
pub enum AddressingMode {
    /// No operand in memory; resolution is a programming error.
    NoneAddressing,
    /// The operation works on the accumulator register directly.
    Accumulator,
    /// One signed 8-bit displacement byte, consumed by the branch handlers.
    Relative,
    /// One literal operand byte at the program counter.
    Immediate,
    /// One operand byte, used as an address inside the zero page.
    ZeroPage,
    /// Zero page plus the X register, wrapping inside the zero page.
    ZeroPageX,
    /// Zero page plus the Y register, wrapping inside the zero page.
    ZeroPageY,
    /// Two operand bytes, little-endian, used as the full address.
    Absolute,
    /// Absolute plus the X register, wrapping through the 16-bit space.
    AbsoluteX,
    /// Absolute plus the Y register, wrapping through the 16-bit space.
    AbsoluteY,
    /// A pointer word names the address; only the jump instruction uses it,
    /// and it reproduces the hardware's page-boundary fetch bug.
    Indirect,
    /// One operand byte plus X names a zero-page pointer to the address.
    IndirectX,
    /// One operand byte names a zero-page pointer; Y is added to the word.
    IndirectY,
}

/// One row of the table as the specifications see it: the length drives the
/// program-counter advance, the mode drives operand resolution. The cycle
/// count is informational only and no contract speaks of it.
pub ghost struct OpcodeInfo {
    /// Instruction length in bytes, operand included: 1 to 3.
    pub len: u8,
    /// How the instruction's operand is addressed.
    pub mode: AddressingMode,
}

/// The table itself: the length and addressing mode of each recognized
/// opcode byte, grouped by shape.
pub open spec fn opcode_entry(code: u8) -> Option<OpcodeInfo> {
    match code {
        // One-byte instructions on the accumulator: shifts and rotates.
        0x0A | 0x4A | 0x2A | 0x6A => Some(
            OpcodeInfo { len: 1, mode: AddressingMode::Accumulator },
        ),
        // One-byte instructions with no operand: break, interrupt and
        // subroutine returns, flag sets and clears, register transfers,
        // register increments and decrements, stack pushes and pops, no-op.
        0x00 | 0x40 | 0x60 | 0x18 | 0xD8 | 0x58 | 0xB8 | 0x38 | 0xF8 | 0x78 | 0xAA | 0xA8 | 0xBA
            | 0x8A | 0x9A | 0x98 | 0xE8 | 0xC8 | 0xCA | 0x88 | 0x48 | 0x08 | 0x28 | 0xEA => Some(
            OpcodeInfo { len: 1, mode: AddressingMode::NoneAddressing },
        ),
        // Branches: one displacement byte.
        0x90 | 0xB0 | 0xF0 | 0xD0 | 0x10 | 0x30 | 0x50 | 0x70 => Some(
            OpcodeInfo { len: 2, mode: AddressingMode::Relative },
        ),
        // Immediate operand byte.
        0xA9 | 0xA2 | 0xA0 | 0x69 | 0xE9 | 0x29 | 0x09 | 0x49 | 0xC9 | 0xE0 | 0xC0 => Some(
            OpcodeInfo { len: 2, mode: AddressingMode::Immediate },
        ),
        // Zero-page operand byte.
        0xA5 | 0xA6 | 0xA4 | 0x65 | 0xE5 | 0x25 | 0x05 | 0x45 | 0xC5 | 0xE4 | 0xC4 | 0x24 | 0x06
            | 0x46 | 0x26 | 0x66 | 0xE6 | 0xC6 | 0x85 | 0x86 | 0x84 => Some(
            OpcodeInfo { len: 2, mode: AddressingMode::ZeroPage },
        ),
        // Zero page indexed by X.
        0xB5 | 0xB6 | 0xB4 | 0x75 | 0xF5 | 0x35 | 0x15 | 0x55 | 0xD5 | 0x16 | 0x56 | 0x36 | 0x76
            | 0xF6 | 0xD6 | 0x95 | 0x94 => Some(
            OpcodeInfo { len: 2, mode: AddressingMode::ZeroPageX },
        ),
        // Zero page indexed by Y.
        0x96 => Some(OpcodeInfo { len: 2, mode: AddressingMode::ZeroPageY }),
        // Zero-page pointer indexed by X.
        0xA1 | 0x61 | 0xE1 | 0x21 | 0x01 | 0x41 | 0xC1 | 0x81 => Some(
            OpcodeInfo { len: 2, mode: AddressingMode::IndirectX },
        ),
        // Zero-page pointer, then indexed by Y.
        0xB1 | 0x71 | 0xF1 | 0x31 | 0x11 | 0x51 | 0xD1 | 0x91 => Some(
            OpcodeInfo { len: 2, mode: AddressingMode::IndirectY },
        ),
        // Absolute two-byte address.
        0xAD | 0xAE | 0xAC | 0x6D | 0xED | 0x2D | 0x0D | 0x4D | 0xCD | 0xEC | 0xCC | 0x2C | 0x0E
            | 0x4E | 0x2E | 0x6E | 0xEE | 0xCE | 0x8D | 0x8E | 0x8C | 0x4C | 0x20 => Some(
            OpcodeInfo { len: 3, mode: AddressingMode::Absolute },
        ),
        // Absolute indexed by X.
        0xBD | 0xBC | 0x7D | 0xFD | 0x3D | 0x1D | 0x5D | 0xDD | 0x9D | 0xFE | 0xDE | 0x1E | 0x5E
            | 0x3E | 0x7E => Some(OpcodeInfo { len: 3, mode: AddressingMode::AbsoluteX }),
        // Absolute indexed by Y.
        0xB9 | 0xBE | 0x79 | 0xF9 | 0x39 | 0x19 | 0x59 | 0xD9 | 0x99 => Some(
            OpcodeInfo { len: 3, mode: AddressingMode::AbsoluteY },
        ),
        // The indirect jump.
        0x6C => Some(OpcodeInfo { len: 3, mode: AddressingMode::Indirect }),
        _ => None,
    }
}

/// Whether a byte names an instruction the engine implements.
pub open spec fn opcode_recognized(code: u8) -> bool {
    opcode_entry(code) is Some
}

/// Instruction length of a recognized opcode.
pub open spec fn opcode_len(code: u8) -> u8 {
    opcode_entry(code)->Some_0.len
}

/// Addressing mode of a recognized opcode.
pub open spec fn opcode_mode(code: u8) -> AddressingMode {
    opcode_entry(code)->Some_0.mode
}

/// One row of the table as the engine reads it.
pub struct OpCode {
    /// The opcode byte this row describes.
    pub code: u8,
    /// Display name; diagnostics only.
    pub mnemonic: &'static str,
    /// Instruction length in bytes, operand included.
    pub bytes: u8,
    /// Base cycle count; informational only.
    pub cycles: u8,
    /// How the instruction's operand is addressed.
    pub addressing_mode: AddressingMode,
}

impl OpCode {
    fn new(code: u8, mnemonic: &'static str, bytes: u8, cycles: u8, addressing_mode: AddressingMode) -> (op: OpCode)
        ensures
            op == (OpCode { code, mnemonic, bytes, cycles, addressing_mode }),
    {
        OpCode { code, mnemonic, bytes, cycles, addressing_mode }
    }

    /// A line describing this row, for traces and fault reports.
    pub fn to_string(&self) -> String {
        let mut line = String::from_str("inst: ");
        line.append(self.mnemonic);
        line.append(", code: ");
        let hex = hex_byte_string(self.code);
        line.append(hex.as_str());
        line.append(", addr: ");
        line.append(mode_name(&self.addressing_mode));
        line
    }
}

/// The display name of an addressing mode.
pub fn mode_name(mode: &AddressingMode) -> (name: &'static str) {
    match mode {
        AddressingMode::NoneAddressing => "NoneAddressing",
        AddressingMode::Accumulator => "Accumulator",
        AddressingMode::Relative => "Relative",
        AddressingMode::Immediate => "Immediate",
        AddressingMode::ZeroPage => "ZeroPage",
        AddressingMode::ZeroPageX => "ZeroPageX",
        AddressingMode::ZeroPageY => "ZeroPageY",
        AddressingMode::Absolute => "Absolute",
        AddressingMode::AbsoluteX => "AbsoluteX",
        AddressingMode::AbsoluteY => "AbsoluteY",
        AddressingMode::Indirect => "Indirect",
        AddressingMode::IndirectX => "IndirectX",
        AddressingMode::IndirectY => "IndirectY",
    }
}

/// One hexadecimal digit as text.
pub fn hex_digit(n: u8) -> (d: &'static str)
    requires
        n < 16,
{
    match n {
        0 => "0",
        1 => "1",
        2 => "2",
        3 => "3",
        4 => "4",
        5 => "5",
        6 => "6",
        7 => "7",
        8 => "8",
        9 => "9",
        10 => "a",
        11 => "b",
        12 => "c",
        13 => "d",
        14 => "e",
        15 => "f",
        _ => "?",
    }
}

/// A byte as `0x`-prefixed hexadecimal text.
pub fn hex_byte_string(v: u8) -> String {
    let mut s = String::from_str("0x");
    s.append(hex_digit(v / 16));
    s.append(hex_digit(v % 16));
    s
}

/// A 16-bit value as `0x`-prefixed hexadecimal text.
pub fn hex_word_string(v: u16) -> String {
    let mut s = String::from_str("0x");
    s.append(hex_digit((v / 4096) as u8));
    s.append(hex_digit(((v / 256) % 16) as u8));
    s.append(hex_digit(((v / 16) % 16) as u8));
    s.append(hex_digit((v % 16) as u8));
    s
}

/// The length and addressing mode of each recognized opcode, grouped as in
/// `opcode_entry`, with which it is proved to agree arm by arm.
fn opcode_meta(code: u8) -> (r: Option<(u8, AddressingMode)>)
    ensures
        r is Some <==> opcode_recognized(code),
        r is Some ==> {
            let (len, mode) = r->Some_0;
            &&& len == opcode_len(code)
            &&& mode == opcode_mode(code)
            &&& 1 <= len <= 3
        },
{
    match code {
        0x0A | 0x4A | 0x2A | 0x6A => Some((1, AddressingMode::Accumulator)),
        0x00 | 0x40 | 0x60 | 0x18 | 0xD8 | 0x58 | 0xB8 | 0x38 | 0xF8 | 0x78 | 0xAA | 0xA8 | 0xBA
            | 0x8A | 0x9A | 0x98 | 0xE8 | 0xC8 | 0xCA | 0x88 | 0x48 | 0x08 | 0x28 | 0xEA => Some(
            (1, AddressingMode::NoneAddressing),
        ),
        0x90 | 0xB0 | 0xF0 | 0xD0 | 0x10 | 0x30 | 0x50 | 0x70 => Some(
            (2, AddressingMode::Relative),
        ),
        0xA9 | 0xA2 | 0xA0 | 0x69 | 0xE9 | 0x29 | 0x09 | 0x49 | 0xC9 | 0xE0 | 0xC0 => Some(
            (2, AddressingMode::Immediate),
        ),
        0xA5 | 0xA6 | 0xA4 | 0x65 | 0xE5 | 0x25 | 0x05 | 0x45 | 0xC5 | 0xE4 | 0xC4 | 0x24 | 0x06
            | 0x46 | 0x26 | 0x66 | 0xE6 | 0xC6 | 0x85 | 0x86 | 0x84 => Some(
            (2, AddressingMode::ZeroPage),
        ),
        0xB5 | 0xB6 | 0xB4 | 0x75 | 0xF5 | 0x35 | 0x15 | 0x55 | 0xD5 | 0x16 | 0x56 | 0x36 | 0x76
            | 0xF6 | 0xD6 | 0x95 | 0x94 => Some((2, AddressingMode::ZeroPageX)),
        0x96 => Some((2, AddressingMode::ZeroPageY)),
        0xA1 | 0x61 | 0xE1 | 0x21 | 0x01 | 0x41 | 0xC1 | 0x81 => Some(
            (2, AddressingMode::IndirectX),
        ),
        0xB1 | 0x71 | 0xF1 | 0x31 | 0x11 | 0x51 | 0xD1 | 0x91 => Some(
            (2, AddressingMode::IndirectY),
        ),
        0xAD | 0xAE | 0xAC | 0x6D | 0xED | 0x2D | 0x0D | 0x4D | 0xCD | 0xEC | 0xCC | 0x2C | 0x0E
            | 0x4E | 0x2E | 0x6E | 0xEE | 0xCE | 0x8D | 0x8E | 0x8C | 0x4C | 0x20 => Some(
            (3, AddressingMode::Absolute),
        ),
        0xBD | 0xBC | 0x7D | 0xFD | 0x3D | 0x1D | 0x5D | 0xDD | 0x9D | 0xFE | 0xDE | 0x1E | 0x5E
            | 0x3E | 0x7E => Some((3, AddressingMode::AbsoluteX)),
        0xB9 | 0xBE | 0x79 | 0xF9 | 0x39 | 0x19 | 0x59 | 0xD9 | 0x99 => Some(
            (3, AddressingMode::AbsoluteY),
        ),
        0x6C => Some((3, AddressingMode::Indirect)),
        _ => None,
    }
}

/// Display mnemonic of an opcode; diagnostics only, so nothing is claimed of
/// it. The byte 0x08 pops the stack into the accumulator here and is listed
/// as PLA; 0x9A loads the Y register from the top of the stack and is listed
/// as TSY, after what it does.
fn opcode_mnemonic(code: u8) -> &'static str {
    match code {
        0xA9 | 0xA5 | 0xB5 | 0xAD | 0xBD | 0xB9 | 0xA1 | 0xB1 => "LDA",
        0xA2 | 0xA6 | 0xB6 | 0xAE | 0xBE => "LDX",
        0xA0 | 0xA4 | 0xB4 | 0xAC | 0xBC => "LDY",
        0x69 | 0x65 | 0x75 | 0x6D | 0x7D | 0x79 | 0x61 | 0x71 => "ADC",
        0xE9 | 0xE5 | 0xF5 | 0xED | 0xFD | 0xF9 | 0xE1 | 0xF1 => "SBC",
        0x29 | 0x25 | 0x35 | 0x2D | 0x3D | 0x39 | 0x21 | 0x31 => "AND",
        0x09 | 0x05 | 0x15 | 0x0D | 0x1D | 0x19 | 0x01 | 0x11 => "ORA",
        0x49 | 0x45 | 0x55 | 0x4D | 0x5D | 0x59 | 0x41 | 0x51 => "EOR",
        0x0A | 0x06 | 0x16 | 0x0E | 0x1E => "ASL",
        0x4A | 0x46 | 0x56 | 0x4E | 0x5E => "LSR",
        0x2A | 0x26 | 0x36 | 0x2E | 0x3E => "ROL",
        0x6A | 0x66 | 0x76 | 0x6E | 0x7E => "ROR",
        0x90 => "BCC",
        0xB0 => "BCS",
        0xF0 => "BEQ",
        0xD0 => "BNE",
        0x10 => "BPL",
        0x30 => "BMI",
        0x50 => "BVC",
        0x70 => "BVS",
        0x4C | 0x6C => "JMP",
        0x20 => "JSR",
        0x60 => "RTS",
        0x18 => "CLC",
        0xD8 => "CLD",
        0x58 => "CLI",
        0xB8 => "CLV",
        0x38 => "SEC",
        0xF8 => "SED",
        0x78 => "SEI",
        0xC9 | 0xC5 | 0xD5 | 0xCD | 0xDD | 0xD9 | 0xC1 | 0xD1 => "CMP",
        0xE0 | 0xE4 | 0xEC => "CPX",
        0xC0 | 0xC4 => "CPY",
        0xCC => "CMY",
        0x24 | 0x2C => "BIT",
        0xAA => "TAX",
        0xA8 => "TAY",
        0xBA => "TSX",
        0x8A => "TXA",
        0x9A => "TSY",
        0x98 => "TYA",
        0xE6 | 0xF6 | 0xEE | 0xFE => "INC",
        0xE8 => "INX",
        0xC8 => "INY",
        0xC6 | 0xD6 | 0xCE | 0xDE => "DEC",
        0xCA => "DEX",
        0x88 => "DEY",
        0x48 => "PHA",
        0x08 => "PLA",
        0x28 => "PLP",
        0x85 | 0x95 | 0x8D | 0x9D | 0x99 | 0x81 | 0x91 => "STA",
        0x86 | 0x96 | 0x8E => "STX",
        0x84 | 0x94 | 0x8C => "STY",
        0xEA => "NOP",
        0x40 => "RTI",
        0x00 => "BRK",
        _ => "???",
    }
}

/// Base cycle count of an opcode; informational only, so nothing is claimed
/// of it.
fn opcode_base_cycles(code: u8) -> u8 {
    match code {
        0xA5 | 0xA6 | 0xA4 | 0x65 | 0xE5 | 0x25 | 0x05 | 0x45 | 0xE4 | 0xC4 | 0x24 | 0x85 | 0x86
            | 0x84 | 0x48 | 0x4C | 0x6C => 3,
        0xB5 | 0xB6 | 0xB4 | 0xAD | 0xBD | 0xB9 | 0xAE | 0xBE | 0xAC | 0xBC | 0x75 | 0x6D | 0x7D
            | 0x79 | 0xF5 | 0xED | 0xFD | 0xF9 | 0x35 | 0x2D | 0x3D | 0x39 | 0x15 | 0x0D | 0x1D
            | 0x19 | 0x55 | 0x4D | 0x5D | 0x59 | 0xEC | 0xCC | 0x2C | 0x95 | 0x94 | 0x96 | 0x8D
            | 0x8E | 0x8C | 0x08 | 0x28 => 4,
        0xB1 | 0x71 | 0xF1 | 0x31 | 0x11 | 0x51 | 0x06 | 0x46 | 0x26 | 0x66 | 0xE6 | 0xC6 | 0xD6
            | 0xCE | 0xDE | 0x9D | 0x99 => 5,
        0xA1 | 0x61 | 0xE1 | 0x21 | 0x01 | 0x41 | 0xC1 | 0x16 | 0x56 | 0x36 | 0x76 | 0xF6 | 0xEE
            | 0x81 | 0x91 | 0x20 | 0x60 | 0x40 => 6,
        0x1E | 0x5E | 0x3E | 0x7E | 0xFE | 0x00 => 7,
        _ => 2,
    }
}

/// Looks a byte up in the table: the metadata of each recognized opcode,
/// nothing for an unlisted byte.
pub fn opcode_lookup(code: u8) -> (r: Option<OpCode>)
    ensures
        r is Some <==> opcode_recognized(code),
        r is Some ==> {
            let op = r->Some_0;
            &&& op.code == code
            &&& op.bytes == opcode_len(code)
            &&& op.addressing_mode == opcode_mode(code)
            &&& 1 <= op.bytes <= 3
        },
{
    match opcode_meta(code) {
        Some((bytes, addressing_mode)) => Some(
            OpCode::new(code, opcode_mnemonic(code), bytes, opcode_base_cycles(code), addressing_mode),
        ),
        None => None,
    }
}

} // verus!
