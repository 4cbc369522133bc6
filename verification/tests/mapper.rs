use nes_core::cartridge::Cartridge;
use nes_core::mapper::{load_rom, null, Mapper, MapperType, MirroringType};
use nes_core::memory::{MemRead, MemWrite};

fn cart(mapper: u8, prg_banks: u8, chr_banks: u8, vertical: bool) -> Cartridge {
    let flags6 = ((mapper & 0x0F) << 4) | if vertical { 1 } else { 0 };
    let flags7 = mapper & 0xF0;
    let mut rom = vec![0x4E, 0x45, 0x53, 0x1A, prg_banks, chr_banks, flags6, flags7];
    rom.extend_from_slice(&[0u8; 8]);
    // Byte k of PRG bank n is n * 16 + (k % 16); the first byte of bank n is n * 16.
    for n in 0..prg_banks as usize {
        for k in 0..16 * 1024 {
            rom.push((n * 16 + (k % 16)) as u8);
        }
    }
    for n in 0..chr_banks as usize * 2 {
        for k in 0..4 * 1024 {
            rom.push((0x80 + n * 8 + (k % 8)) as u8);
        }
    }
    Cartridge::create_from_rom(&rom).unwrap()
}

#[test]
fn null_mapper_is_silent() {
    let mut m = null();
    assert!(matches!(m, MapperType::NullMapper(_)));
    m.write(0x8000, 7);
    assert_eq!(m.read(0x8000), 0);
    assert_eq!(m.read(0x0000), 0);
    assert!(matches!(m.mirroring(), MirroringType::Horizontal));
    assert!(!m.irq_pending());
    assert!(!m.battery_backed());
    assert!(m.use_ciram(0x2000));
    assert_eq!(m.nametable_page(0x2000), 0);
}

#[test]
fn unsupported_mapper_is_an_error() {
    let c = cart(4, 1, 1, false);
    let e = load_rom(&c).err().unwrap();
    assert_eq!(e.mapper_num, 4);
    let c = cart(0x47 - 1, 1, 1, false);
    assert_eq!(load_rom(&c).err().unwrap().mapper_num, 70);
}

#[test]
fn supported_mappers_load() {
    assert!(matches!(load_rom(&cart(0, 2, 1, false)), Ok(MapperType::Nrom(_))));
    assert!(matches!(load_rom(&cart(1, 4, 1, false)), Ok(MapperType::MMC1(_))));
    assert!(matches!(load_rom(&cart(2, 4, 0, false)), Ok(MapperType::Uxrom(_))));
    assert!(matches!(load_rom(&cart(71, 4, 0, false)), Ok(MapperType::Uxrom(_))));
}

#[test]
fn nrom_32k_maps_prg_straight() {
    let mut m = load_rom(&cart(0, 2, 1, true)).unwrap();
    assert_eq!(m.read(0x8000), 0x00);
    assert_eq!(m.read(0x8001), 0x01);
    assert_eq!(m.read(0xC000), 0x10);
    assert_eq!(m.read(0xFFFF), 0x1F);
    assert!(matches!(m.mirroring(), MirroringType::Vertical));
}

#[test]
fn nrom_16k_prg_is_mirrored() {
    let mut m = load_rom(&cart(0, 1, 1, false)).unwrap();
    assert_eq!(m.read(0x8003), 0x03);
    assert_eq!(m.read(0xC003), 0x03);
    assert_eq!(m.read(0xFFFF), 0x0F);
}

#[test]
fn nrom_prg_ram_and_rom_protection() {
    let mut m = load_rom(&cart(0, 1, 1, false)).unwrap();
    m.write(0x6000, 0x5A);
    m.write(0x7FFF, 0xA5);
    assert_eq!(m.read(0x6000), 0x5A);
    assert_eq!(m.read(0x7FFF), 0xA5);
    m.write(0x8000, 0x77);
    assert_eq!(m.read(0x8000), 0x00);
    // CHR-ROM is protected too.
    m.write(0x0000, 0x77);
    assert_eq!(m.read(0x0000), 0x80);
    assert_eq!(m.read(0x1000), 0x88);
    assert_eq!(m.read(0x5000), 0);
}

#[test]
fn nrom_without_chr_rom_has_chr_ram() {
    let mut m = load_rom(&cart(0, 1, 0, false)).unwrap();
    assert_eq!(m.read(0x0123), 0);
    m.write(0x0123, 0x99);
    assert_eq!(m.read(0x0123), 0x99);
    m.write(0x1FFF, 0x11);
    assert_eq!(m.read(0x1FFF), 0x11);
}

fn mmc1_load(m: &mut MapperType, addr: usize, value: u8) {
    for i in 0..5 {
        m.write(addr, (value >> i) & 1);
    }
}

#[test]
fn mmc1_bank_switch() {
    let mut m = load_rom(&cart(1, 8, 1, false)).unwrap();
    // After loading: bank 0 at 0x8000, the last bank at 0xC000.
    assert_eq!(m.read(0x8000), 0x00);
    assert_eq!(m.read(0xC000), 0x70);
    for v in [1u8, 0, 0, 0, 0] {
        m.write(0xE000, v);
    }
    if let MapperType::MMC1(inner) = &m {
        assert_eq!(inner.prg_bank, 1);
        assert_eq!(inner.shift_reg, 0b0001_0000);
    } else {
        panic!("not a mapper 1");
    }
    assert_eq!(m.read(0x8000), 0x10);
    assert_eq!(m.read(0xC000), 0x70);
}

#[test]
fn mmc1_reset_bit_empties_the_shift_register() {
    let mut m = load_rom(&cart(1, 8, 1, false)).unwrap();
    m.write(0xE000, 1);
    m.write(0xE000, 1);
    m.write(0x8000, 0x80);
    if let MapperType::MMC1(inner) = &m {
        assert_eq!(inner.shift_reg, 0b0001_0000);
        assert_eq!(inner.control & 0x0C, 0x0C);
    } else {
        panic!("not a mapper 1");
    }
    // The two bits shifted in before are gone: five more are needed.
    mmc1_load(&mut m, 0xE000, 3);
    assert_eq!(m.read(0x8000), 0x30);
}

#[test]
fn mmc1_control_sets_mirroring_and_prg_mode() {
    let mut m = load_rom(&cart(1, 8, 1, false)).unwrap();
    assert!(matches!(m.mirroring(), MirroringType::Vertical));
    mmc1_load(&mut m, 0x8000, 0b01111);
    assert!(matches!(m.mirroring(), MirroringType::Horizontal));
    mmc1_load(&mut m, 0x8000, 0b01100);
    assert!(matches!(m.mirroring(), MirroringType::SingleScreenA));
    mmc1_load(&mut m, 0x8000, 0b01101);
    assert!(matches!(m.mirroring(), MirroringType::SingleScreenB));
    // Mode 2: bank 0 fixed at 0x8000, 0xC000 switched.
    mmc1_load(&mut m, 0x8000, 0b01000);
    mmc1_load(&mut m, 0xE000, 5);
    assert_eq!(m.read(0x8000), 0x00);
    assert_eq!(m.read(0xC000), 0x50);
    // Mode 0: 32 KiB switched at once; the low bit of the bank is ignored.
    mmc1_load(&mut m, 0x8000, 0b00000);
    mmc1_load(&mut m, 0xE000, 5);
    assert_eq!(m.read(0x8000), 0x40);
    assert_eq!(m.read(0xC000), 0x50);
}

#[test]
fn mmc1_chr_banks() {
    let mut m = load_rom(&cart(1, 2, 2, false)).unwrap();
    // Four CHR banks of 4 KiB; bank n starts with 0x80 + 8 n. 4 KiB mode after loading.
    assert_eq!(m.read(0x0000), 0x80);
    mmc1_load(&mut m, 0xA000, 2);
    assert_eq!(m.read(0x0000), 0x90);
    mmc1_load(&mut m, 0xC000, 3);
    assert_eq!(m.read(0x1000), 0x98);
    // 8 KiB mode: the first register selects both halves, its low bit ignored.
    mmc1_load(&mut m, 0x8000, 0b01110);
    mmc1_load(&mut m, 0xA000, 3);
    assert_eq!(m.read(0x0000), 0x90);
    assert_eq!(m.read(0x1000), 0x98);
    mmc1_load(&mut m, 0xC000, 0);
    assert_eq!(m.read(0x1000), 0x98);
}

#[test]
fn mmc1_prg_ram_enable() {
    let mut m = load_rom(&cart(1, 2, 1, false)).unwrap();
    m.write(0x6010, 0x42);
    assert_eq!(m.read(0x6010), 0x42);
    mmc1_load(&mut m, 0xE000, 0b10000);
    assert_eq!(m.read(0x6010), 0);
    m.write(0x6010, 0x43);
    mmc1_load(&mut m, 0xE000, 0b00000);
    assert_eq!(m.read(0x6010), 0x42);
}

#[test]
fn uxrom_bank_select() {
    let mut m = load_rom(&cart(2, 8, 0, true)).unwrap();
    assert_eq!(m.read(0x8000), 0x00);
    assert_eq!(m.read(0xC000), 0x70);
    m.write(0x8000, 3);
    assert_eq!(m.read(0x8000), 0x30);
    assert_eq!(m.read(0xBFFF), 0x3F);
    assert_eq!(m.read(0xC000), 0x70);
    m.write(0xFFFF, 0xF5);
    assert_eq!(m.read(0x8000), 0x50);
    // The bank wraps modulo the number of banks.
    m.write(0x8000, 9);
    assert_eq!(m.read(0x8000), 0x10);
    assert!(matches!(m.mirroring(), MirroringType::Vertical));
}

#[test]
fn uxrom_chr_ram() {
    let mut m = load_rom(&cart(2, 2, 0, false)).unwrap();
    m.write(0x0FFF, 0x12);
    assert_eq!(m.read(0x0FFF), 0x12);
    m.write(0x1FFF, 0x34);
    assert_eq!(m.read(0x1FFF), 0x34);
    assert_eq!(m.read(0x6000), 0);
}

#[test]
fn mapper_clone_keeps_bank_state() {
    let mut m = load_rom(&cart(2, 8, 0, false)).unwrap();
    m.write(0x8000, 2);
    let mut c = m.clone();
    m.write(0x8000, 4);
    assert_eq!(c.read(0x8000), 0x20);
    assert_eq!(m.read(0x8000), 0x40);
    assert_eq!(c.peek(0xC000), 0x70);
}
