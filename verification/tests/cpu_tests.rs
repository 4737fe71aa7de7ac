use nes6502::cpu::CPU;
use nes6502::bus::Bus;
use nes6502::processor_status::ProcessorStatusFlags;
use nes6502::rom::test_rom;

#[test]
fn cpu_new() {
    let bus = Bus::new(test_rom());
    let cpu = CPU::new(bus);
    assert_eq!(cpu.index_register_x, 0);
}

#[test]
fn cpu_cpu_new() {
    let bus = Bus::new(test_rom());
    let cpu = CPU::new(bus);
    assert_eq!(cpu.index_register_x, 0);
}

#[test]
fn cpu_lda_from_memory() {
    let bus = Bus::new(test_rom());
    let mut cpu = CPU::new(bus);
    cpu.write_mem_u8(0x10, 0xF1); // this should set off the negative flag
    cpu.write_mem_u8(0x11, 0x00); // this should set off the zero flag

    // test the negative flag
    let _ = cpu.load_and_run_program(vec![0xa5, 0x10, 0x00]);
    assert_eq!(cpu.accumulator, 0xF1);
    assert_eq!(
        cpu.processor_status
            .has_flag_set(ProcessorStatusFlags::Negative),
        true
    );

    // test the positive flag
    let _ = cpu.load_and_run_program(vec![0xa5, 0x11, 0x00]);
    assert_eq!(cpu.accumulator, 0x00);
    assert_eq!(
        cpu.processor_status
            .has_flag_set(ProcessorStatusFlags::ZeroFlag),
        true
    );
}

#[test]
fn cpu_adc_from_memory() {
    let bus = Bus::new(test_rom());
    let mut cpu = CPU::new(bus);
    cpu.write_mem_u8(0x10, 0x05);

    let _ = cpu.load_and_run_program(vec![0x65, 0x10, 0x65, 0x10]);
    assert_eq!(cpu.accumulator, 0x0A);
}

#[test]
fn cpu_bit() {
    let bus = Bus::new(test_rom());
    let mut cpu = CPU::new(bus);
    cpu.write_mem_u8(0x11, 0b1011_1111); // this should set off the overflow flag
    let _ = cpu.load_and_run_program(vec![0xA9, 0xFF, 0x24, 0x11]);

    assert_eq!(
        cpu.processor_status
            .has_flag_set(ProcessorStatusFlags::Overflow),
        true
    );
}

#[test]
fn cpu_clear_set_flag_instructions() {
    let bus = Bus::new(test_rom());
    let mut cpu = CPU::new(bus);
    cpu.write_mem_u8(0x11, 0x00);
    let _ = cpu.load_and_run_program(vec![0x38, 0xF8, 0x18, 0x00]);

    assert_eq!(
        cpu.processor_status
            .has_flag_set(ProcessorStatusFlags::DecimalMode),
        true
    );
    assert_eq!(
        cpu.processor_status
            .has_flag_set(ProcessorStatusFlags::CarryFlag),
        false
    );
}

#[test]
fn cpu_compare_instructions() {
    let bus = Bus::new(test_rom());
    let mut cpu = CPU::new(bus);
    cpu.write_mem_u8(0x11, 0x00);
    let _ = cpu.load_and_run_program(vec![0xA9, 0x81, 0xC9, 0x02, 0x00]);

    assert!(cpu
        .processor_status
        .has_flag_set(ProcessorStatusFlags::CarryFlag));
    assert!(cpu
        .processor_status
        .has_flag_set(ProcessorStatusFlags::Negative));
}

#[test]
fn cpu_increment_decrement() {
    let bus = Bus::new(test_rom());
    let mut cpu = CPU::new(bus);
    cpu.write_mem_u8(0x11, 0x05);
    let _ = cpu.load_and_run_program(vec![0xC6, 0x11, 0xC6, 0x11, 0xE6, 0x11, 0xE8]);

    assert_eq!(cpu.read_mem_u8(0x11), 4);
    assert_eq!(cpu.index_register_x, 1);
}

#[test]
fn cpu_eor() {
    let bus = Bus::new(test_rom());
    let mut cpu = CPU::new(bus);
    cpu.write_mem_u8(0x11, 0x05);
    let _ = cpu.load_and_run_program(vec![0xA9, 0b1111_1100, 0x49, 0b1111_1110, 0x00]);

    assert_eq!(cpu.accumulator, 2);
}

#[test]
fn cpu_ora() {
    let bus = Bus::new(test_rom());
    let mut cpu = CPU::new(bus);
    let _ = cpu.load_and_run_program(vec![0xA9, 0b0000_0010, 0x4A]);

    assert_eq!(cpu.accumulator, 1);
}

#[test]
fn cpu_acc_stack() {
    let bus = Bus::new(test_rom());
    let mut cpu = CPU::new(bus);
    let _ = cpu.load_and_run_program(vec![0xA9, 0x01, 0x48, 0xA9, 0x02, 0x48, 0x28]);

    assert_eq!(
        cpu.processor_status
            .has_flag_set(ProcessorStatusFlags::ZeroFlag),
        true
    );
}

#[test]
fn cpu_rotate_instructions() {
    let bus = Bus::new(test_rom());
    let mut cpu = CPU::new(bus);
    cpu.write_mem_u8(0x02, 0xFF);
    let _ = cpu.load_and_run_program(vec![0x26, 0x02, 0x66, 0x02]);

    assert_eq!(0xFF, cpu.read_mem_u8(0x02));
}

#[test]
fn cpu_transfer_operations() {
    let bus = Bus::new(test_rom());
    let mut cpu = CPU::new(bus);
    let _ = cpu.load_and_run_program(vec![0xA9, 0x05, 0x48, 0xBA, 0xAA]);

    assert_eq!(cpu.accumulator, 5);
    assert_eq!(cpu.index_register_x, 5);
}

#[test]
fn test_0xa9_lda_immediate_load_data() {
    let bus = Bus::new(test_rom());
    let mut cpu = CPU::new(bus);
    let _ = cpu.load_and_run_program(vec![0xa9, 0x05, 0x00]);
    assert_eq!(cpu.accumulator, 5);
    assert!(cpu.processor_status.0 & 0b0000_0010 == 0b00);
    assert!(cpu.processor_status.0 & 0b1000_0000 == 0);
}

#[test]
fn test_0xaa_tax_move_a_to_x() {
    let bus = Bus::new(test_rom());
    let mut cpu = CPU::new(bus);
    cpu.accumulator = 10;
    let _ = cpu.load_and_run_program(vec![0xaa, 0x00]);

    assert_eq!(cpu.index_register_x, 10)
}

#[test]
fn test_5_ops_working_together() {
    let bus = Bus::new(test_rom());
    let mut cpu = CPU::new(bus);
    let _ = cpu.load_and_run_program(vec![0xa9, 0xc0, 0xaa, 0xe8, 0x00]);

    assert_eq!(cpu.index_register_x, 0xc1)
}

#[test]
fn test_inx_overflow() {
    let bus = Bus::new(test_rom());
    let mut cpu = CPU::new(bus);
    cpu.index_register_x = 0xFF;
    let _ = cpu.load_and_run_program(vec![0xe8, 0xe8, 0x00]);

    assert_eq!(cpu.index_register_x, 2)
}

#[test]
fn test_lda_from_memory() {
    let bus = Bus::new(test_rom());
    let mut cpu = CPU::new(bus);
    cpu.write_mem_u8(0x10, 0x55);

    let _ = cpu.load_and_run_program(vec![0xa5, 0x10, 0x00]);

    assert_eq!(cpu.accumulator, 0x55);
}
