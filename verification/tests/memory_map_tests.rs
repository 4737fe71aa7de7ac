use nes6502::MemoryMap;

#[test]
fn read_write_u8() {
    let mut mem_map = MemoryMap::new();

    mem_map.write_mem_u8(0x0000, 2);
    assert_eq!(mem_map.read_mem_u8(0x0000), 2);
}

#[test]
fn read_write_u16() {
    let mut mem_map = MemoryMap::new();

    mem_map.write_mem_u16(0xF000, 65533);
    assert_eq!(mem_map.read_mem_u16(0xF000), 65533);
}

#[test]
fn read_write_u8_at_the_last_address() {
    // Single-byte access has no failure mode: every 16-bit address holds a
    // byte, the very last one included.
    let mut mem_map = MemoryMap::new();

    assert_eq!(mem_map.read_mem_u8(0xFFFF), 0);
    mem_map.write_mem_u8(0xFFFF, 7);
    assert_eq!(mem_map.read_mem_u8(0xFFFF), 7);
    assert_eq!(mem_map.read_mem_u8(0xFFFE), 0);
}
