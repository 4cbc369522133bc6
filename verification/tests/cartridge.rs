use nes_core::cartridge::{Cartridge, ConsoleType, NesHeader, RomError, TimingType};
use nes_core::mapper::MirroringType;

fn header_bytes(prg_units: u8, chr_units: u8, flags6: u8, flags7: u8) -> Vec<u8> {
    let mut h = vec![0x4E, 0x45, 0x53, 0x1A, prg_units, chr_units, flags6, flags7];
    h.extend_from_slice(&[0u8; 8]);
    h
}

fn dump(prg_units: u8, chr_units: u8, flags6: u8, flags7: u8) -> Vec<u8> {
    let mut rom = header_bytes(prg_units, chr_units, flags6, flags7);
    if flags6 & 0x04 != 0 {
        rom.extend(std::iter::repeat(0xEE).take(512));
    }
    for i in 0..(prg_units as usize * 16 * 1024) {
        rom.push((i % 251) as u8);
    }
    for i in 0..(chr_units as usize * 8 * 1024) {
        rom.push((i % 241) as u8 ^ 0x80);
    }
    rom
}

#[test]
fn header_plain_sizes_and_flags() {
    let mut h = header_bytes(2, 1, 0b0001_0011, 0b0010_0000);
    h[12] = 1;
    h[14] = 2;
    h[15] = 0x45;
    let header = NesHeader::new(&h);
    assert_eq!(header.prg_rom_size, 32 * 1024);
    assert_eq!(header.chr_rom_size, 8 * 1024);
    assert!(matches!(header.mirroring_type, MirroringType::Vertical));
    assert!(header.battery);
    assert!(!header.trainer);
    assert_eq!(header.mapper_num, 0x21);
    assert!(matches!(header.console_type, ConsoleType::NES));
    assert!(!header.nes2);
    assert_eq!(header.submapper_num, 0);
    assert_eq!(header.eeprom_size, 0);
    assert_eq!(header.prg_ram_size, 0);
    assert!(matches!(header.timing_type, TimingType::PAL_NES));
    assert_eq!(header.misc_roms, 2);
    assert_eq!(header.default_exp_device, 0x05);
}

#[test]
fn header_mirroring_bits() {
    let h = NesHeader::new(&header_bytes(1, 1, 0x00, 0));
    assert!(matches!(h.mirroring_type, MirroringType::Horizontal));
    let h = NesHeader::new(&header_bytes(1, 1, 0x01, 0));
    assert!(matches!(h.mirroring_type, MirroringType::Vertical));
    let h = NesHeader::new(&header_bytes(1, 1, 0x09, 0));
    assert!(matches!(h.mirroring_type, MirroringType::FourScreen));
    let h = NesHeader::new(&header_bytes(1, 1, 0x08, 0));
    assert!(matches!(h.mirroring_type, MirroringType::FourScreen));
}

#[test]
fn header_nes2_fields() {
    let mut h = header_bytes(0x34, 0x02, 0x10, 0x28 | 0x01);
    h[8] = 0xA2; // submapper 10, mapper bits 8-11 = 2
    h[9] = 0x10; // CHR size high nibble 1, PRG size high nibble 0
    h[10] = 0x97; // low nibble 7, high nibble 9
    h[11] = 0x07; // CHR-RAM shift 7
    h[12] = 0x02;
    h[13] = 0x5C; // Vs. hardware 5, PPU 12
    let header = NesHeader::new(&h);
    assert!(header.nes2);
    assert_eq!(header.mapper_num, 0x221);
    assert_eq!(header.submapper_num, 10);
    assert_eq!(header.prg_rom_size, 0x34 * 16 * 1024);
    assert_eq!(header.chr_rom_size, 0x102 * 8 * 1024);
    assert_eq!(header.eeprom_size, 64 << 7);
    assert_eq!(header.prg_ram_size, 64 << 9);
    assert_eq!(header.chr_ram_size, 64 << 7);
    assert_eq!(header.chr_nvram_size, 0);
    assert!(matches!(header.timing_type, TimingType::MUL_REG));
    assert!(matches!(
        header.console_type,
        ConsoleType::VsSystem { ppu_type: 12, hardware_type: 5 }
    ));
}

#[test]
fn header_console_types() {
    let mut h = header_bytes(1, 0, 0, 2);
    assert!(matches!(NesHeader::new(&h).console_type, ConsoleType::PC10));
    h[7] = 3;
    h[13] = 0x37;
    assert!(matches!(NesHeader::new(&h).console_type, ConsoleType::Extended(7)));
    h[12] = 3;
    assert!(matches!(NesHeader::new(&h).timing_type, TimingType::Dendy));
    h[12] = 0;
    assert!(matches!(NesHeader::new(&h).timing_type, TimingType::NTSC_NES));
}

#[test]
fn header_exponent_sizes() {
    // PRG: high nibble 0xF, exponent 3, multiplier 1*2+1 = 3: (2 << 3) * 3 = 48.
    let mut h = header_bytes(0b0000_1101, 0, 0, 0x08);
    h[9] = 0x0F;
    let header = NesHeader::new(&h);
    assert_eq!(header.prg_rom_size, 48);
    // CHR: high nibble 0xF, exponent 10, multiplier 1: 2 << 10 = 2048.
    let mut h = header_bytes(1, 0b0010_1000, 0, 0x08);
    h[9] = 0xF0;
    let header = NesHeader::new(&h);
    assert_eq!(header.chr_rom_size, 2048);
    assert_eq!(header.prg_rom_size, 16 * 1024);
}

#[test]
fn header_exponent_size_beyond_the_word_is_clamped() {
    // Exponent 63, multiplier 7: far beyond any machine word.
    let mut h = header_bytes(0xFF, 0, 0, 0x08);
    h[9] = 0x0F;
    let header = NesHeader::new(&h);
    assert_eq!(header.prg_rom_size, usize::MAX);
    let mut rom = h.clone();
    rom.extend_from_slice(&[0u8; 64]);
    assert_eq!(Cartridge::create_from_rom(&rom).err(), Some(RomError::Truncated));
}

#[test]
fn rom_load_nrom_40k() {
    let rom = dump(2, 1, 0, 0);
    assert_eq!(rom.len(), 16 + 40 * 1024);
    let cart = Cartridge::create_from_rom(&rom).unwrap();
    assert_eq!(cart.header.mapper_num, 0);
    assert_eq!(cart.prg_size, 32 * 1024);
    assert_eq!(cart.chr_size, 8 * 1024);
    assert_eq!(cart.prg_rom.len(), 32 * 1024);
    assert_eq!(cart.prg_rom[0], rom[16]);
    assert_eq!(cart.prg_rom[32 * 1024 - 1], rom[16 + 32 * 1024 - 1]);
    let chr = cart.chr_rom.unwrap();
    assert_eq!(chr.len(), 8 * 1024);
    assert_eq!(chr[0], rom[16 + 32 * 1024]);
    assert_eq!(chr[8 * 1024 - 1], rom[rom.len() - 1]);
}

#[test]
fn rom_without_chr_has_no_chr_block() {
    let rom = dump(1, 0, 0, 0);
    let cart = Cartridge::create_from_rom(&rom).unwrap();
    assert!(cart.chr_rom.is_none());
    assert_eq!(cart.chr_size, 0);
    assert_eq!(cart.prg_rom.len(), 16 * 1024);
}

#[test]
fn rom_with_trainer_skips_it() {
    let rom = dump(1, 1, 0x04, 0);
    assert_eq!(rom.len(), 16 + 512 + 24 * 1024);
    let cart = Cartridge::create_from_rom(&rom).unwrap();
    assert!(cart.header.trainer);
    assert_eq!(cart.prg_rom[0], rom[16 + 512]);
    assert_eq!(cart.prg_rom[1], 1);
    assert_eq!(cart.chr_rom.unwrap()[0], rom[16 + 512 + 16 * 1024]);
}

#[test]
fn rom_bad_magic_is_rejected() {
    let mut rom = dump(1, 1, 0, 0);
    rom[3] = 0x1B;
    assert_eq!(Cartridge::create_from_rom(&rom).err(), Some(RomError::BadMagic));
    let mut rom = dump(1, 1, 0, 0);
    rom[0] = b'n';
    assert_eq!(Cartridge::create_from_rom(&rom).err(), Some(RomError::BadMagic));
    assert_eq!(Cartridge::create_from_rom(&vec![]).err(), Some(RomError::BadMagic));
    assert_eq!(
        Cartridge::create_from_rom(&vec![0x4E, 0x45, 0x53, 0x1A]).err(),
        Some(RomError::BadMagic)
    );
}

#[test]
fn rom_shorter_than_declared_is_rejected() {
    let mut rom = dump(2, 1, 0, 0);
    rom.pop();
    assert_eq!(Cartridge::create_from_rom(&rom).err(), Some(RomError::Truncated));
    let rom = header_bytes(1, 0, 0, 0);
    assert_eq!(Cartridge::create_from_rom(&rom).err(), Some(RomError::Truncated));
    // A trainer is declared but the dump ends in the header.
    let rom = header_bytes(0, 0, 0x04, 0);
    assert_eq!(Cartridge::create_from_rom(&rom).err(), Some(RomError::Truncated));
    // Nothing is declared: the header alone is a cartridge.
    let rom = header_bytes(0, 0, 0, 0);
    assert!(Cartridge::create_from_rom(&rom).is_ok());
}

#[test]
fn rom_longer_than_declared_is_accepted() {
    let mut rom = dump(1, 1, 0, 0);
    rom.extend_from_slice(&[1, 2, 3]);
    let cart = Cartridge::create_from_rom(&rom).unwrap();
    assert_eq!(cart.chr_rom.unwrap().len(), 8 * 1024);
}

#[test]
fn block_helpers_cut_the_blocks() {
    let rom = dump(1, 1, 0, 0);
    let header = NesHeader::new(&rom[..16]);
    let prg = Cartridge::prg_rom_vec(&rom, &header);
    let chr = Cartridge::chr_rom_vec(&rom, &header);
    assert_eq!(prg.len(), 16 * 1024);
    assert_eq!(chr.len(), 8 * 1024);
    assert_eq!(prg[5], rom[16 + 5]);
    assert_eq!(chr[5], rom[16 + 16 * 1024 + 5]);
}
