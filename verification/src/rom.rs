//! The cartridge image: a parser for the iNES binary layout.
//!
//! An image begins with a 16-byte header: a 4-byte magic tag, the program and
//! character block sizes in pages (bytes 4 and 5), and two control bytes
//! (6 and 7) carrying the mapper number, the screen-mirroring mode, an
//! optional 512-byte trainer block, and the header version.

use vstd::prelude::*;

verus! {

/// Bytes per page of program memory.
pub const PRG_ROM_PAGE_SIZE: usize = 16384;

/// Bytes per page of character memory.
pub const CHR_ROM_PAGE_SIZE: usize = 8192;

/// How the cartridge asks the screen to be mirrored.
#[allow(non_camel_case_types)]
#[derive(Debug, Clone, Copy, PartialEq, Eq, Structural)]
pub enum Mirroring {
    VERTICAL,
    HORIZONTAL,
    FOUR_SCREEN,
}

/// The memory that would be held in the cartridge.
pub struct Rom {
    /// The program memory, connected to the CPU.
    pub prg_rom: Vec<u8>,
    /// Constant picture data, connected to the picture unit.
    pub chr_rom: Vec<u8>,
    /// Which bank-switching hardware the cartridge carries.
    pub mapper: u8,
    /// The screen-mirroring mode the cartridge selects.
    pub screen_mirroring: Mirroring,
}

/// Whether the image begins with the 4-byte iNES magic tag.
pub open spec fn has_nes_tag(raw: Seq<u8>) -> bool {
    raw.len() >= 4 && raw[0] == 0x4Eu8 && raw[1] == 0x45u8 && raw[2] == 0x53u8 && raw[3] == 0x1Au8
}

/// The header version declared in control byte 7 (zero for classic iNES).
pub open spec fn ines_version(raw: Seq<u8>) -> u8 {
    (raw[7] >> 2u8) & 0x03u8
}

/// The mapper number: its high nibble lives in byte 7, its low nibble in the
/// high nibble of byte 6.
pub open spec fn mapper_of(raw: Seq<u8>) -> u8 {
    (raw[7] & 0xF0u8) | (raw[6] >> 4u8)
}

/// The mirroring mode selected by control byte 6: bit 3 asks for four-screen
/// layout and wins; otherwise bit 0 picks vertical over horizontal.
pub open spec fn mirroring_of(raw: Seq<u8>) -> Mirroring {
    if raw[6] & 0x08u8 != 0 {
        Mirroring::FOUR_SCREEN
    } else if raw[6] & 0x01u8 != 0 {
        Mirroring::VERTICAL
    } else {
        Mirroring::HORIZONTAL
    }
}

/// Size in bytes of the program block.
pub open spec fn prg_size_of(raw: Seq<u8>) -> int {
    raw[4] * PRG_ROM_PAGE_SIZE
}

/// Size in bytes of the character block.
pub open spec fn chr_size_of(raw: Seq<u8>) -> int {
    raw[5] * CHR_ROM_PAGE_SIZE
}

/// Where the program block starts: right after the header, or after a
/// 512-byte trainer block when bit 2 of control byte 6 declares one.
pub open spec fn prg_start_of(raw: Seq<u8>) -> int {
    if raw[6] & 0x04u8 != 0 {
        16 + 512int
    } else {
        16int
    }
}

/// Whether an image parses: it holds a full header with the magic tag, the
/// header version is the classic one, and the data reaches as far as the
/// header declares.
pub open spec fn rom_parse_ok(raw: Seq<u8>) -> bool {
    &&& raw.len() >= 16
    &&& has_nes_tag(raw)
    &&& ines_version(raw) == 0
    &&& raw.len() >= prg_start_of(raw) + prg_size_of(raw) + chr_size_of(raw)
}

/// The message an image that fails to parse is rejected with.
pub open spec fn rom_error_text(raw: Seq<u8>) -> Seq<char> {
    if raw.len() < 16 || !has_nes_tag(raw) {
        "File is not in iNES format"@
    } else if ines_version(raw) != 0 {
        "NES2.0 format is not supported"@
    } else {
        "File is shorter than its header declares"@
    }
}

/// A copy of `count` bytes of `src` starting at `start`.
fn copy_range(src: &Vec<u8>, start: usize, count: usize) -> (out: Vec<u8>)
    requires
        start + count <= src.len(),
    ensures
        out@ == src@.subrange(start as int, start as int + count as int),
{
    let mut out: Vec<u8> = Vec::new();
    let mut i: usize = 0;
    while i < count
        invariant
            i <= count,
            start + count <= src.len(),
            out@ == src@.subrange(start as int, start as int + i as int),
        decreases count - i,
    {
        out.push(src[start + i]);
        i = i + 1;
        proof {
            assert(out@ =~= src@.subrange(start as int, start as int + i as int));
        }
    }
    out
}

impl Rom {
    /// Parses a raw image. Succeeds exactly on the images `rom_parse_ok`
    /// admits, handing back the program and character blocks verbatim together
    /// with the mapper number and mirroring mode; everything else is rejected
    /// with the message `rom_error_text` names.
    pub fn new(raw: &Vec<u8>) -> (r: Result<Rom, String>)
        ensures
            r is Ok <==> rom_parse_ok(raw@),
            r is Ok ==> {
                let rom = r->Ok_0;
                &&& rom.prg_rom@ == raw@.subrange(
                    prg_start_of(raw@),
                    prg_start_of(raw@) + prg_size_of(raw@),
                )
                &&& rom.chr_rom@ == raw@.subrange(
                    prg_start_of(raw@) + prg_size_of(raw@),
                    prg_start_of(raw@) + prg_size_of(raw@) + chr_size_of(raw@),
                )
                &&& rom.mapper == mapper_of(raw@)
                &&& rom.screen_mirroring == mirroring_of(raw@)
            },
            r is Err ==> r->Err_0@ == rom_error_text(raw@),
    {
        if raw.len() < 16 {
            return Err(String::from_str("File is not in iNES format"));
        }
        if raw[0] != 0x4E || raw[1] != 0x45 || raw[2] != 0x53 || raw[3] != 0x1A {
            return Err(String::from_str("File is not in iNES format"));
        }
        let mapper = (raw[7] & 0xF0) | (raw[6] >> 4u8);

        let ines_ver = (raw[7] >> 2u8) & 0x03;
        if ines_ver != 0 {
            return Err(String::from_str("NES2.0 format is not supported"));
        }
        let four_screen = raw[6] & 0x08 != 0;
        let vertical_mirroring = raw[6] & 0x01 != 0;
        let screen_mirroring = if four_screen {
            Mirroring::FOUR_SCREEN
        } else if vertical_mirroring {
            Mirroring::VERTICAL
        } else {
            Mirroring::HORIZONTAL
        };

        let prg_rom_size = raw[4] as usize * PRG_ROM_PAGE_SIZE;
        let chr_rom_size = raw[5] as usize * CHR_ROM_PAGE_SIZE;

        let skip_trainer = raw[6] & 0x04 != 0;

        let prg_rom_start = 16 + if skip_trainer {
            512
        } else {
            0
        };
        let chr_rom_start = prg_rom_start + prg_rom_size;

        if raw.len() < chr_rom_start + chr_rom_size {
            return Err(String::from_str("File is shorter than its header declares"));
        }

        Ok(
            Rom {
                prg_rom: copy_range(raw, prg_rom_start, prg_rom_size),
                chr_rom: copy_range(raw, chr_rom_start, chr_rom_size),
                mapper,
                screen_mirroring,
            },
        )
    }
}

/// The pieces of a hand-built image, concatenated by `create_rom`.
struct TestRom {
    header: Vec<u8>,
    trainer: Option<Vec<u8>>,
    pgp_rom: Vec<u8>,
    chr_rom: Vec<u8>,
}

/// Appends all of `src` to `dst`.
fn append_bytes(dst: &mut Vec<u8>, src: &Vec<u8>)
    ensures
        final(dst)@ == old(dst)@ + src@,
{
    let mut i: usize = 0;
    while i < src.len()
        invariant
            i <= src.len(),
            dst@ == old(dst)@ + src@.subrange(0, i as int),
        decreases src.len() - i,
    {
        dst.push(src[i]);
        i = i + 1;
        proof {
            assert(dst@ =~= old(dst)@ + src@.subrange(0, i as int));
        }
    }
    proof {
        assert(src@.subrange(0, src@.len() as int) =~= src@);
    }
}

/// A vector of `n` copies of one byte.
fn filled(value: u8, n: usize) -> (out: Vec<u8>)
    ensures
        out@.len() == n,
        forall|i: int| 0 <= i < n ==> out@[i] == value,
{
    let mut out: Vec<u8> = Vec::new();
    let mut i: usize = 0;
    while i < n
        invariant
            i <= n,
            out@.len() == i,
            forall|j: int| 0 <= j < i ==> out@[j] == value,
        decreases n - i,
    {
        out.push(value);
        i = i + 1;
    }
    out
}

/// One image out of its pieces: header, then the trainer block if there is
/// one, then the program block, then the character block.
fn create_rom(rom: TestRom) -> (out: Vec<u8>)
    ensures
        out@ == rom.header@ + (match rom.trainer {
            Some(t) => t@,
            None => Seq::<u8>::empty(),
        }) + rom.pgp_rom@ + rom.chr_rom@,
{
    let mut result: Vec<u8> = Vec::new();

    append_bytes(&mut result, &rom.header);
    match &rom.trainer {
        Some(t) => {
            append_bytes(&mut result, t);
        },
        None => {
            proof {
                assert(result@ =~= result@ + Seq::<u8>::empty());
            }
        },
    }
    append_bytes(&mut result, &rom.pgp_rom);
    append_bytes(&mut result, &rom.chr_rom);
    result
}

/// A ready-made, well-formed cartridge image for exercising the engine: two
/// pages of program memory holding 0x01, one page of character memory holding
/// 0x02, mapper 3, vertical mirroring, no trainer.
pub fn test_rom() -> (rom: Rom)
    ensures
        rom.prg_rom@.len() == 2 * PRG_ROM_PAGE_SIZE,
        forall|i: int| 0 <= i < rom.prg_rom@.len() ==> rom.prg_rom@[i] == 1u8,
        rom.chr_rom@.len() == CHR_ROM_PAGE_SIZE,
        forall|i: int| 0 <= i < rom.chr_rom@.len() ==> rom.chr_rom@[i] == 2u8,
        rom.mapper == 3,
        rom.screen_mirroring == Mirroring::VERTICAL,
{
    let mut header: Vec<u8> = Vec::new();
    header.push(0x4E);
    header.push(0x45);
    header.push(0x53);
    header.push(0x1A);
    header.push(0x02);
    header.push(0x01);
    header.push(0x31);
    header.push(0x00);
    header.push(0x00);
    header.push(0x00);
    header.push(0x00);
    header.push(0x00);
    header.push(0x00);
    header.push(0x00);
    header.push(0x00);
    header.push(0x00);

    let pgp_rom = filled(1, 2 * PRG_ROM_PAGE_SIZE);
    let chr_rom = filled(2, CHR_ROM_PAGE_SIZE);

    let ghost header_view = header@;
    let ghost pgp_view = pgp_rom@;
    let ghost chr_view = chr_rom@;

    let bytes = create_rom(TestRom { header, trainer: None, pgp_rom, chr_rom });

    proof {
        let raw = bytes@;
        assert(raw =~= header_view + pgp_view + chr_view);
        assert(raw[4] == 0x02u8 && raw[5] == 0x01u8 && raw[6] == 0x31u8 && raw[7] == 0x00u8);
        assert((0x00u8 >> 2u8) & 0x03u8 == 0 && (0x00u8 & 0xF0u8) | (0x31u8 >> 4u8) == 3 && 0x31u8
            & 0x08u8 == 0 && 0x31u8 & 0x01u8 == 1 && 0x31u8 & 0x04u8 == 0) by (bit_vector);
        assert(rom_parse_ok(raw));
        assert(raw.subrange(16, 16 + 2 * PRG_ROM_PAGE_SIZE as int) =~= pgp_view);
        assert(raw.subrange(
            16 + 2 * PRG_ROM_PAGE_SIZE as int,
            16 + 2 * PRG_ROM_PAGE_SIZE as int + CHR_ROM_PAGE_SIZE as int,
        ) =~= chr_view);
    }

    match Rom::new(&bytes) {
        Ok(rom) => rom,
        Err(_) => unreached(),
    }
}

} // verus!
