use nes6502::AddressingMode;
use nes6502::EmuError;
use nes6502::Mirroring;
use nes6502::Rom;
use nes6502::bus::Bus;
use nes6502::cpu::CPU;
use nes6502::opcodes::opcode_lookup;
use nes6502::processor_status::ProcessorStatusFlags;
use nes6502::rom::test_rom;
use std::cell::Cell;

fn fresh_cpu() -> CPU {
    CPU::new(Bus::new(test_rom()))
}

#[test]
fn adc_signed_overflow() {
    // 0x50 plus 0x50 with no prior carry: two positive summands whose sum
    // flips the sign bit — Overflow set, Carry clear.
    let mut cpu = fresh_cpu();
    let _ = cpu.load_and_run_program(vec![0xA9, 0x50, 0x69, 0x50, 0x00]);
    assert_eq!(cpu.accumulator, 0xA0);
    assert!(cpu
        .processor_status
        .has_flag_set(ProcessorStatusFlags::Overflow));
    assert!(!cpu
        .processor_status
        .has_flag_set(ProcessorStatusFlags::CarryFlag));
}

#[test]
fn adc_unsigned_carry() {
    // 0xFF plus 0x01 wraps to zero: Carry set, Zero set.
    let mut cpu = fresh_cpu();
    let _ = cpu.load_and_run_program(vec![0xA9, 0xFF, 0x69, 0x01, 0x00]);
    assert_eq!(cpu.accumulator, 0x00);
    assert!(cpu
        .processor_status
        .has_flag_set(ProcessorStatusFlags::CarryFlag));
    assert!(cpu
        .processor_status
        .has_flag_set(ProcessorStatusFlags::ZeroFlag));
}

#[test]
fn sbc_borrows_through_complement() {
    // With carry set first, 0x10 minus 0x08: no borrow, so Carry stays set.
    let mut cpu = fresh_cpu();
    let _ = cpu.load_and_run_program(vec![0x38, 0xA9, 0x10, 0xE9, 0x08, 0x00]);
    assert_eq!(cpu.accumulator, 0x08);
    assert!(cpu
        .processor_status
        .has_flag_set(ProcessorStatusFlags::CarryFlag));
}

#[test]
fn compare_below_clears_carry_zero_negative() {
    // Accumulator 0x02 compared with 0x05: below, so Carry and Zero clear;
    // Negative mirrors bit 7 of the register, which is clear for 0x02.
    let mut cpu = fresh_cpu();
    let _ = cpu.load_and_run_program(vec![0xA9, 0x02, 0xC9, 0x05, 0x00]);
    assert!(!cpu
        .processor_status
        .has_flag_set(ProcessorStatusFlags::CarryFlag));
    assert!(!cpu
        .processor_status
        .has_flag_set(ProcessorStatusFlags::ZeroFlag));
    assert!(!cpu
        .processor_status
        .has_flag_set(ProcessorStatusFlags::Negative));
}

#[test]
fn ram_mirror_round_trip() {
    // One physical byte shows through four logical windows.
    let mut cpu = fresh_cpu();
    cpu.write_mem_u8(0x0005, 0xAB);
    assert_eq!(cpu.read_mem_u8(0x0005), 0xAB);
    assert_eq!(cpu.read_mem_u8(0x0805), 0xAB);
    assert_eq!(cpu.read_mem_u8(0x1005), 0xAB);
    assert_eq!(cpu.read_mem_u8(0x1805), 0xAB);

    // Writing through an alias lands on the same byte.
    cpu.write_mem_u8(0x1805, 0x31);
    assert_eq!(cpu.read_mem_u8(0x0005), 0x31);
}

#[test]
fn undecoded_addresses_read_zero_and_ignore_writes() {
    let mut cpu = fresh_cpu();
    cpu.write_mem_u8(0x5000, 0x77);
    assert_eq!(cpu.read_mem_u8(0x5000), 0);
}

#[test]
fn stack_round_trip_u16() {
    // Pushing a 16-bit value and popping 16 bits yields it unchanged, and
    // the stack depth is back where it started.
    let mut cpu = fresh_cpu();
    let depth_before = cpu.stack_base;
    cpu.push_stack_u16(0xBEEF);
    let value = cpu.read_stack_u16();
    assert_eq!(value, 0xBEEF);
    assert_eq!(cpu.stack_base, depth_before);
}

#[test]
fn stack_round_trip_u8() {
    let mut cpu = fresh_cpu();
    cpu.push_stack(0x42);
    cpu.push_stack(0x43);
    assert_eq!(cpu.pop_stack(), 0x43);
    assert_eq!(cpu.pop_stack(), 0x42);
    assert_eq!(cpu.stack_base, 0);
}

#[test]
fn indirect_jmp_page_boundary_bug() {
    // A pointer whose low byte is 0xFF fetches the target's high byte from
    // the start of its own page: with the pointer word at the program
    // counter naming 0x10FF, the low byte comes from 0x10FF and the high
    // byte from 0x1000, not 0x1100.
    let mut cpu = fresh_cpu();
    cpu.write_mem_u8(0x10FF, 0x80);
    cpu.write_mem_u8(0x1000, 0x50);
    cpu.write_mem_u8(0x1100, 0x60);
    cpu.load_program(vec![0x6C, 0xFF, 0x10]);
    cpu.reset();
    cpu.program_counter = 0x0600;
    let outcome = cpu.step();
    assert_eq!(outcome, Ok(true));
    assert_eq!(cpu.program_counter, 0x5080);
}

#[test]
fn indirect_jmp_without_boundary() {
    // Away from the page boundary the pointer behaves plainly.
    let mut cpu = fresh_cpu();
    cpu.write_mem_u8(0x10FE, 0x80);
    cpu.write_mem_u8(0x10FF, 0x50);
    cpu.load_program(vec![0x6C, 0xFE, 0x10]);
    cpu.reset();
    cpu.program_counter = 0x0600;
    let outcome = cpu.step();
    assert_eq!(outcome, Ok(true));
    assert_eq!(cpu.program_counter, 0x5080);
}

#[test]
fn five_ops_end_to_end() {
    // Loading [LDA #0xC0, TAX, INX, BRK] leaves the accumulator 0xC0, the X
    // register 0xC1, and the run loop halted.
    let mut cpu = fresh_cpu();
    let outcome = cpu.load_and_run_program(vec![0xA9, 0xC0, 0xAA, 0xE8, 0x00]);
    assert_eq!(outcome, Ok(()));
    assert_eq!(cpu.accumulator, 0xC0);
    assert_eq!(cpu.index_register_x, 0xC1);
}

#[test]
fn shift_memory_end_to_end() {
    // Loading [LDA #0x80, STA $0x02, LSR $0x02] leaves memory at 0x02 equal
    // to 0x40 and Carry clear.
    let mut cpu = fresh_cpu();
    let outcome = cpu.load_and_run_program(vec![0xA9, 0x80, 0x85, 0x02, 0x46, 0x02, 0x00]);
    assert_eq!(outcome, Ok(()));
    assert_eq!(cpu.read_mem_u8(0x02), 0x40);
    assert!(!cpu
        .processor_status
        .has_flag_set(ProcessorStatusFlags::CarryFlag));
}

#[test]
fn branch_loop_counts_down() {
    // LDX #8, then DEX / BNE -3 until X reaches zero.
    let mut cpu = fresh_cpu();
    let outcome = cpu.load_and_run_program(vec![0xA2, 0x08, 0xCA, 0xD0, 0xFD, 0x00]);
    assert_eq!(outcome, Ok(()));
    assert_eq!(cpu.index_register_x, 0);
    assert!(cpu
        .processor_status
        .has_flag_set(ProcessorStatusFlags::ZeroFlag));
}

#[test]
fn jsr_and_rts_balance_the_stack() {
    // JSR to a routine that loads the accumulator and returns.
    let mut cpu = fresh_cpu();
    let outcome = cpu.load_and_run_program(vec![
        0x20, 0x05, 0x06, // JSR $0605
        0x00, // BRK on return
        0x00, 0xA9, 0x42, // the routine: LDA #0x42
        0x60, // RTS
    ]);
    assert_eq!(outcome, Ok(()));
    assert_eq!(cpu.accumulator, 0x42);
    assert_eq!(cpu.stack_base, 0);
}

#[test]
fn unrecognized_opcode_is_reported() {
    let mut cpu = fresh_cpu();
    let outcome = cpu.load_and_run_program(vec![0xFF]);
    assert_eq!(outcome, Err(EmuError::UnrecognizedOpcode { code: 0xFF }));
}

#[test]
fn peripheral_window_access_is_reported() {
    // LDA absolute from 0x2000 touches the unimplemented register block.
    let mut cpu = fresh_cpu();
    let outcome = cpu.load_and_run_program(vec![0xAD, 0x00, 0x20, 0x00]);
    assert_eq!(
        outcome,
        Err(EmuError::PeripheralUnsupported { addr: 0x2000 })
    );
}

#[test]
fn faulting_instruction_leaves_state_unchanged() {
    // A store into the peripheral window faults and nothing moves: the
    // program counter still points at the faulting opcode.
    let mut cpu = fresh_cpu();
    cpu.load_program(vec![0x8D, 0x00, 0x20]);
    cpu.reset();
    cpu.program_counter = 0x0600;
    let outcome = cpu.step();
    assert_eq!(outcome, Err(EmuError::PeripheralUnsupported { addr: 0x2000 }));
    assert_eq!(cpu.program_counter, 0x0600);
}

#[test]
fn operand_resolution_zero_page_wraps() {
    // Zero-page indexed addressing wraps inside the page: base 0xF0 plus
    // X 0x20 resolves to 0x10, never 0x110.
    let mut cpu = fresh_cpu();
    cpu.write_mem_u8(0x0600, 0xF0);
    cpu.program_counter = 0x0600;
    cpu.index_register_x = 0x20;
    assert_eq!(
        cpu.get_operand_address(&AddressingMode::ZeroPageX),
        Ok(0x0010)
    );
}

#[test]
fn reset_clears_indexes_and_flags_only() {
    let mut cpu = fresh_cpu();
    cpu.accumulator = 9;
    cpu.index_register_x = 5;
    cpu.index_register_y = 6;
    cpu.processor_status.0 = 0xFF;
    cpu.reset();
    assert_eq!(cpu.accumulator, 9);
    assert_eq!(cpu.index_register_x, 0);
    assert_eq!(cpu.index_register_y, 0);
    assert_eq!(cpu.processor_status.0, 0);
    // The reset vector lies in undecoded space and reads as zero.
    assert_eq!(cpu.program_counter, 0);
}

#[test]
fn rom_rejects_bad_magic() {
    let blob = vec![0u8; 64];
    let parsed = Rom::new(&blob);
    assert!(parsed.is_err());
    assert_eq!(parsed.err().unwrap(), "File is not in iNES format");
}

#[test]
fn rom_rejects_short_input() {
    let blob = vec![0x4E, 0x45, 0x53, 0x1A];
    let parsed = Rom::new(&blob);
    assert!(parsed.is_err());
    assert_eq!(parsed.err().unwrap(), "File is not in iNES format");
}

#[test]
fn rom_rejects_newer_header_version() {
    let mut blob = vec![0u8; 16];
    blob[0] = 0x4E;
    blob[1] = 0x45;
    blob[2] = 0x53;
    blob[3] = 0x1A;
    blob[7] = 0x08; // header version 2
    let parsed = Rom::new(&blob);
    assert!(parsed.is_err());
    assert_eq!(parsed.err().unwrap(), "NES2.0 format is not supported");
}

#[test]
fn rom_rejects_truncated_image() {
    let mut blob = vec![0u8; 16];
    blob[0] = 0x4E;
    blob[1] = 0x45;
    blob[2] = 0x53;
    blob[3] = 0x1A;
    blob[4] = 0x01; // one program page declared, none present
    let parsed = Rom::new(&blob);
    assert!(parsed.is_err());
    assert_eq!(
        parsed.err().unwrap(),
        "File is shorter than its header declares"
    );
}

#[test]
fn rom_parses_the_test_image() {
    let rom = test_rom();
    assert_eq!(rom.prg_rom.len(), 2 * 16384);
    assert!(rom.prg_rom.iter().all(|b| *b == 1));
    assert_eq!(rom.chr_rom.len(), 8192);
    assert!(rom.chr_rom.iter().all(|b| *b == 2));
    assert_eq!(rom.mapper, 3);
    assert_eq!(rom.screen_mirroring, Mirroring::VERTICAL);
}

#[test]
fn opcode_table_describes_rows() {
    let op = opcode_lookup(0xA9).unwrap();
    assert_eq!(op.code, 0xA9);
    assert_eq!(op.bytes, 2);
    assert_eq!(op.to_string(), "inst: LDA, code: 0xa9, addr: Immediate");
    assert!(opcode_lookup(0xFF).is_none());
}

#[test]
fn register_dump_names_the_registers() {
    let cpu = fresh_cpu();
    let dump = cpu.log_dump_registers_string();
    assert!(dump.contains("prgm_ctr: 0x0000"));
    assert!(dump.contains("acc_reg: 0x00"));
}

#[test]
fn observer_sees_every_step() {
    let mut cpu = fresh_cpu();
    cpu.load_program(vec![0xA9, 0x01, 0xA9, 0x02, 0x00]);
    cpu.reset();
    cpu.program_counter = 0x0600;
    let seen = Cell::new(0u32);
    let outcome = cpu.run_with_callback(|_cpu: &CPU| {
        seen.set(seen.get() + 1);
    });
    assert_eq!(outcome, Ok(()));
    // Two loads and the break: the observer runs before each fetch.
    assert_eq!(seen.get(), 3);
}

#[test]
fn screen_state_renders_and_reports_changes() {
    let mut cpu = fresh_cpu();
    cpu.write_mem_u8(0x0200, 1); // white
    cpu.write_mem_u8(0x0201, 3); // red
    let mut frame = vec![0u8; 3 * 1024];
    let updated = nes6502::screen::read_screen_state(&cpu, &mut frame);
    assert!(updated);
    assert_eq!(&frame[0..6], &[255, 255, 255, 255, 0, 0]);
    // Everything else is color index zero: black.
    assert_eq!(&frame[6..9], &[0, 0, 0]);

    // A second poll over an unchanged screen reports no update.
    let updated_again = nes6502::screen::read_screen_state(&cpu, &mut frame);
    assert!(!updated_again);

    // Painting one pixel is noticed.
    cpu.write_mem_u8(0x0205, 7); // yellow
    let updated_third = nes6502::screen::read_screen_state(&cpu, &mut frame);
    assert!(updated_third);
    assert_eq!(&frame[15..18], &[255, 255, 0]);
}

#[test]
fn palette_maps_indexes_to_triples() {
    assert_eq!(nes6502::screen::color(0), (0, 0, 0));
    assert_eq!(nes6502::screen::color(1), (255, 255, 255));
    assert_eq!(nes6502::screen::color(9), (128, 128, 128));
    assert_eq!(nes6502::screen::color(14), (255, 255, 0));
    assert_eq!(nes6502::screen::color(200), (0, 255, 255));
}

#[test]
fn word_read_at_the_last_address_is_reported() {
    // A 16-bit operand read asked for at 0xFFFF has no second byte to read.
    let mut cpu = fresh_cpu();
    cpu.program_counter = 0xFFFF;
    assert_eq!(
        cpu.get_operand_address(&AddressingMode::Absolute),
        Err(EmuError::AddressOverflow { addr: 0xFFFF })
    );
}
