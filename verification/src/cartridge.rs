//! Cartridge images: the 16-byte header of a dump and the program and
//! character blocks that follow it.

use vstd::prelude::*;
use crate::mapper::MirroringType;
use crate::memory::copy_bytes;

verus! {

/// The console a cartridge was made for.
#[allow(non_camel_case_types)]
#[derive(Debug, Clone, Copy)]
pub enum ConsoleType {
    NES,
    VsSystem { ppu_type: u8, hardware_type: u8 },
    PC10,
    Extended(u8),
}

/// The television standard that sets the console's timing.
#[allow(non_camel_case_types)]
#[derive(Debug, Clone, Copy)]
pub enum TimingType {
    NTSC_NES,
    PAL_NES,
    MUL_REG,
    Dendy,
}

/// What the 16 header bytes of a dump say.
#[derive(Debug, Clone, Copy)]
pub struct NesHeader {
    pub prg_rom_size: usize,
    pub chr_rom_size: usize,
    pub mirroring_type: MirroringType,
    pub battery: bool,
    pub trainer: bool,
    pub mapper_num: u16,
    pub console_type: ConsoleType,
    pub nes2: bool,
    pub submapper_num: u8,
    pub eeprom_size: usize,
    pub prg_ram_size: usize,
    pub chr_ram_size: usize,
    pub chr_nvram_size: usize,
    pub timing_type: TimingType,
    pub misc_roms: u8,
    pub default_exp_device: u8,
}

/// The length of the header.
pub const HEADER_LEN: usize = 16;

/// The length of a trainer block.
pub const TRAINER_LEN: usize = 512;

/// A size in the exponent form: two to the power of the upper six bits plus
/// one, times an odd multiplier taken from the lower two bits.
pub open spec fn exponent_size(low: u8) -> u128 {
    ((2u128 << ((((low & 0b1111_1100) as u128) >> 2))) * ((((low & 0b0000_0011) as u128) * 2
        + 1))) as u128
}

/// A size in the plain form: twelve bits of units, of `1 << unit_shift`
/// bytes each.
pub open spec fn plain_size(high_nibble: u8, low: u8, unit_shift: u128) -> u128 {
    ((((high_nibble as u128) << 8) | (low as u128)) << unit_shift)
}

/// The size that a low byte and a high nibble declare; the nibble 0xF
/// selects the exponent form.
pub open spec fn declared_size(high_nibble: u8, low: u8, unit_shift: u128) -> u128 {
    if high_nibble == 0xF {
        exponent_size(low)
    } else {
        plain_size(high_nibble, low, unit_shift)
    }
}

/// A size held in a machine word: sizes beyond the word are held as the
/// largest word.
pub open spec fn clamp_size(n: u128) -> usize {
    if n > usize::MAX {
        usize::MAX
    } else {
        n as usize
    }
}

/// The size of a RAM that a shift count declares: none for 0, else 64 bytes
/// shifted left by the count.
pub open spec fn ram_size(shift: u8) -> usize {
    if shift == 0 {
        0
    } else {
        64usize << (shift as usize)
    }
}

/// `declared_size`, computed and clamped.
fn read_size(high_nibble: u8, low: u8, unit_shift: u128) -> (r: usize)
    requires
        high_nibble <= 0xF,
        unit_shift == 13 || unit_shift == 14,
    ensures
        r == clamp_size(declared_size(high_nibble, low, unit_shift)),
{
    let n: u128 = if high_nibble == 0xF {
        let e: u128 = ((low & 0b1111_1100) as u128) >> 2;
        let m: u128 = ((low & 0b0000_0011) as u128) * 2 + 1;
        assert(((low & 0b1111_1100) as u128) >> 2 <= 63) by (bit_vector);
        assert(low & 0b0000_0011 <= 3) by (bit_vector);
        let base: u128 = 2u128 << e;
        assert(base <= 0x1_0000_0000_0000_0000) by (bit_vector)
            requires
                base == 2u128 << e,
                e <= 63,
        ;
        assert(base * m <= 0x7_0000_0000_0000_0000) by (nonlinear_arith)
            requires
                base <= 0x1_0000_0000_0000_0000,
                m <= 7,
        ;
        base * m
    } else {
        (((high_nibble as u128) << 8) | (low as u128)) << unit_shift
    };
    if n > usize::MAX as u128 {
        usize::MAX
    } else {
        n as usize
    }
}

/// `ram_size`, computed.
fn read_ram_size(shift: u8) -> (r: usize)
    requires
        shift <= 15,
    ensures
        r == ram_size(shift),
{
    if shift == 0 {
        0
    } else {
        64usize << (shift as usize)
    }
}

impl NesHeader {
    /// The mirroring that byte 6 asks for: four-screen where bit 3 is set,
    /// else vertical where bit 0 is set, else horizontal.
    pub open spec fn mirroring_of(flags6: u8) -> MirroringType {
        if flags6 & 0b0000_1000 != 0 {
            MirroringType::FourScreen
        } else if flags6 & 0b0000_0001 != 0 {
            MirroringType::Vertical
        } else {
            MirroringType::Horizontal
        }
    }

    /// The mapper number: its low nibble from byte 6, its middle nibble from
    /// byte 7, its high nibble from byte 8.
    pub open spec fn mapper_of(flags6: u8, flags7: u8, flags8: u8) -> u16 {
        ((flags6 >> 4) as u16) | ((flags7 & 0b1111_0000) as u16) | (((flags8 & 0b0000_1111) as u16)
            << 8)
    }

    /// The console type that the low two bits of byte 7 select; byte 13
    /// qualifies it.
    pub open spec fn console_of(flags7: u8, flags13: u8) -> ConsoleType {
        let k = flags7 & 0b0000_0011;
        if k == 0 {
            ConsoleType::NES
        } else if k == 1 {
            ConsoleType::VsSystem {
                ppu_type: flags13 & 0b0000_1111,
                hardware_type: (flags13 & 0b1111_0000) >> 4,
            }
        } else if k == 2 {
            ConsoleType::PC10
        } else {
            ConsoleType::Extended(flags13 & 0b0000_1111)
        }
    }

    /// The timing that the low two bits of byte 12 select.
    pub open spec fn timing_of(flags12: u8) -> TimingType {
        let k = flags12 & 0b0000_0011;
        if k == 0 {
            TimingType::NTSC_NES
        } else if k == 1 {
            TimingType::PAL_NES
        } else if k == 2 {
            TimingType::MUL_REG
        } else {
            TimingType::Dendy
        }
    }

    /// What a header says, field by field.
    pub open spec fn parse(h: Seq<u8>) -> NesHeader
        recommends
            h.len() >= 16,
    {
        NesHeader {
            prg_rom_size: clamp_size(declared_size(h[9] & 0b0000_1111, h[4], 14)),
            chr_rom_size: clamp_size(declared_size((h[9] & 0b1111_0000) >> 4, h[5], 13)),
            mirroring_type: Self::mirroring_of(h[6]),
            battery: h[6] & 0b0000_0010 != 0,
            trainer: h[6] & 0b0000_0100 != 0,
            mapper_num: Self::mapper_of(h[6], h[7], h[8]),
            console_type: Self::console_of(h[7], h[13]),
            nes2: h[7] & 0b0000_1100 == 8,
            submapper_num: (h[8] & 0b1111_0000) >> 4,
            eeprom_size: ram_size(h[10] & 0b0000_1111),
            prg_ram_size: ram_size((h[10] & 0b1111_0000) >> 4),
            chr_ram_size: ram_size(h[11] & 0b0000_1111),
            chr_nvram_size: ram_size((h[11] & 0b1111_0000) >> 4),
            timing_type: Self::timing_of(h[12]),
            misc_roms: h[14] & 3,
            default_exp_device: h[15] & 0b0011_1111,
        }
    }

    /// Reads a header. The magic bytes are not looked at here.
    pub fn new(header: &[u8]) -> (r: Self)
        requires
            header@.len() >= 16,
        ensures
            r == Self::parse(header@),
    {
        let h9: u8 = header[9];
        let h10: u8 = header[10];
        let h11: u8 = header[11];
        assert(h9 & 0b0000_1111 <= 0xF) by (bit_vector);
        assert((h9 & 0b1111_0000) >> 4 <= 0xF) by (bit_vector);
        assert(h10 & 0b0000_1111 <= 15) by (bit_vector);
        assert((h10 & 0b1111_0000) >> 4 <= 15) by (bit_vector);
        assert(h11 & 0b0000_1111 <= 15) by (bit_vector);
        assert((h11 & 0b1111_0000) >> 4 <= 15) by (bit_vector);
        let console_kind: u8 = header[7] & 0b0000_0011;
        let timing_kind: u8 = header[12] & 0b0000_0011;
        NesHeader {
            prg_rom_size: read_size(h9 & 0b0000_1111, header[4], 14),
            chr_rom_size: read_size((h9 & 0b1111_0000) >> 4, header[5], 13),
            mirroring_type: if header[6] & 0b0000_1000 != 0 {
                MirroringType::FourScreen
            } else if header[6] & 0b0000_0001 != 0 {
                MirroringType::Vertical
            } else {
                MirroringType::Horizontal
            },
            battery: header[6] & 0b0000_0010 != 0,
            trainer: header[6] & 0b0000_0100 != 0,
            mapper_num: ((header[6] >> 4) as u16) | ((header[7] & 0b1111_0000) as u16) | (((
            header[8] & 0b0000_1111) as u16) << 8),
            console_type: if console_kind == 0 {
                ConsoleType::NES
            } else if console_kind == 1 {
                ConsoleType::VsSystem {
                    ppu_type: header[13] & 0b0000_1111,
                    hardware_type: (header[13] & 0b1111_0000) >> 4,
                }
            } else if console_kind == 2 {
                ConsoleType::PC10
            } else {
                ConsoleType::Extended(header[13] & 0b0000_1111)
            },
            nes2: header[7] & 0b0000_1100 == 8,
            submapper_num: (header[8] & 0b1111_0000) >> 4,
            eeprom_size: read_ram_size(h10 & 0b0000_1111),
            prg_ram_size: read_ram_size((h10 & 0b1111_0000) >> 4),
            chr_ram_size: read_ram_size(h11 & 0b0000_1111),
            chr_nvram_size: read_ram_size((h11 & 0b1111_0000) >> 4),
            timing_type: if timing_kind == 0 {
                TimingType::NTSC_NES
            } else if timing_kind == 1 {
                TimingType::PAL_NES
            } else if timing_kind == 2 {
                TimingType::MUL_REG
            } else {
                TimingType::Dendy
            },
            misc_roms: header[14] & 3,
            default_exp_device: header[15] & 0b0011_1111,
        }
    }
}

/// Why a dump is not a cartridge image.
#[derive(Debug, Clone, Copy, PartialEq, Eq)]
pub enum RomError {
    /// The dump is shorter than a header or does not start with the magic
    /// bytes.
    BadMagic,
    /// The header declares more program and character bytes than the dump
    /// holds.
    Truncated,
}

/// A cartridge: its header and the blocks of the dump.
#[derive(Debug)]
pub struct Cartridge {
    pub header: NesHeader,
    pub prg_rom: Vec<u8>,
    pub prg_size: usize,
    pub chr_rom: Option<Vec<u8>>,
    pub chr_size: usize,
}

/// Whether a dump starts with the magic bytes `N`, `E`, `S`, 0x1A.
pub open spec fn has_magic(rom: Seq<u8>) -> bool {
    rom.len() >= 16 && rom[0] == 0x4E && rom[1] == 0x45 && rom[2] == 0x53 && rom[3] == 0x1A
}

/// Where the program block starts: behind the header and, if there is one,
/// the trainer.
pub open spec fn prg_start(header: NesHeader) -> int {
    if header.trainer {
        528
    } else {
        16
    }
}

/// Where the character block starts: behind the program block.
pub open spec fn chr_start(header: NesHeader) -> int {
    prg_start(header) + header.prg_rom_size
}

/// Whether the dump holds all the bytes that its header declares.
pub open spec fn fits(rom: Seq<u8>, header: NesHeader) -> bool {
    chr_start(header) + header.chr_rom_size <= rom.len()
}

impl Cartridge {
    /// The character block as the mappers see it: empty where the cartridge
    /// has none.
    pub open spec fn chr_bytes(&self) -> Seq<u8> {
        match self.chr_rom {
            Some(v) => v@,
            None => Seq::empty(),
        }
    }

    /// Splits a dump into header, program block and character block.
    ///
    /// Fails with `BadMagic` exactly when the dump has no header with the
    /// magic bytes, and with `Truncated` exactly when it has one but is
    /// shorter than the header declares.
    pub fn create_from_rom(rom: &Vec<u8>) -> (r: Result<Self, RomError>)
        ensures
            match r {
                Ok(c) => {
                    &&& has_magic(rom@)
                    &&& c.header == NesHeader::parse(rom@.subrange(0, 16))
                    &&& fits(rom@, c.header)
                    &&& c.prg_rom@ == rom@.subrange(prg_start(c.header), chr_start(c.header))
                    &&& c.prg_size == c.header.prg_rom_size
                    &&& c.chr_size == c.header.chr_rom_size
                    &&& match c.chr_rom {
                        Some(v) => c.header.chr_rom_size > 0 && v@ == rom@.subrange(
                            chr_start(c.header),
                            chr_start(c.header) + c.header.chr_rom_size,
                        ),
                        None => c.header.chr_rom_size == 0,
                    }
                },
                Err(RomError::BadMagic) => !has_magic(rom@),
                Err(RomError::Truncated) => has_magic(rom@) && !fits(
                    rom@,
                    NesHeader::parse(rom@.subrange(0, 16)),
                ),
            },
    {
        if rom.len() < HEADER_LEN || rom[0] != 0x4E || rom[1] != 0x45 || rom[2] != 0x53 || rom[3]
            != 0x1A {
            return Err(RomError::BadMagic);
        }
        let header = NesHeader::new(slice_of(rom, 0, HEADER_LEN));
        let start: usize = if header.trainer {
            HEADER_LEN + TRAINER_LEN
        } else {
            HEADER_LEN
        };
        let room: usize = if rom.len() >= start {
            rom.len() - start
        } else {
            return Err(RomError::Truncated);
        };
        if header.prg_rom_size > room || header.chr_rom_size > room - header.prg_rom_size {
            return Err(RomError::Truncated);
        }
        let prg_rom = Self::prg_rom_vec(rom, &header);
        let chr_rom = if header.chr_rom_size == 0 {
            None
        } else {
            Some(Self::chr_rom_vec(rom, &header))
        };
        Ok(
            Cartridge {
                prg_rom,
                prg_size: header.prg_rom_size,
                chr_rom,
                chr_size: header.chr_rom_size,
                header,
            },
        )
    }

    /// The program block of a dump.
    pub fn prg_rom_vec(rom: &Vec<u8>, header: &NesHeader) -> (r: Vec<u8>)
        requires
            chr_start(*header) <= rom@.len(),
        ensures
            r@ == rom@.subrange(prg_start(*header), chr_start(*header)),
    {
        let len: usize = rom.len();
        let start: usize = if header.trainer {
            HEADER_LEN + TRAINER_LEN
        } else {
            HEADER_LEN
        };
        copy_bytes(slice_of(rom, start, start + header.prg_rom_size))
    }

    /// The character block of a dump.
    pub fn chr_rom_vec(rom: &Vec<u8>, header: &NesHeader) -> (r: Vec<u8>)
        requires
            fits(rom@, *header),
        ensures
            r@ == rom@.subrange(chr_start(*header), chr_start(*header) + header.chr_rom_size),
    {
        let len: usize = rom.len();
        let start: usize = if header.trainer {
            HEADER_LEN + TRAINER_LEN + header.prg_rom_size
        } else {
            HEADER_LEN + header.prg_rom_size
        };
        copy_bytes(slice_of(rom, start, start + header.chr_rom_size))
    }
}

/// The part of `v` from `from` up to, not including, `to`.
fn slice_of(v: &Vec<u8>, from: usize, to: usize) -> (r: &[u8])
    requires
        from <= to <= v@.len(),
    ensures
        r@ == v@.subrange(from as int, to as int),
{
    vstd::slice::slice_subrange(v.as_slice(), from, to)
}

} // verus!
