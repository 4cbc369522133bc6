use nes_core::apu::mixer::Mixer;
use nes_core::bus::Bus;
use nes_core::cartridge::Cartridge;
use nes_core::controller::basic::NesController;
use nes_core::mapper::load_rom;
use nes_core::memory::MemWrite;
use nes_core::ppu::memory::{Oam, PPUMemory};
use nes_core::ppu::palette::{NesColor, Palette};
use nes_core::ppu::register::Register;
use nes_core::ppu::{revert_bits, Frame, PPU};

/// A bus with a mapper 0 cartridge whose character ROM holds, as tile 1, a
/// tile of colour 1 in every pixel, and as tile 2 a tile of colour 3.
fn picture_bus() -> Bus {
    let mut rom = vec![0x4E, 0x45, 0x53, 0x1A, 1, 1, 0, 0];
    rom.extend_from_slice(&[0u8; 8]);
    rom.extend(std::iter::repeat(0xEA).take(16 * 1024));
    let mut chr = vec![0u8; 8 * 1024];
    for row in 0..8 {
        chr[16 + row] = 0xFF;
        chr[32 + row] = 0xFF;
        chr[32 + 8 + row] = 0xFF;
    }
    rom.extend_from_slice(&chr);
    let cart = Cartridge::create_from_rom(&rom).unwrap();
    let mut bus = Bus::new(NesController::new(0), Mixer::new());
    bus.load_mapper(load_rom(&cart).unwrap());
    bus
}

fn test_palette() -> Vec<u8> {
    let mut bytes = Vec::new();
    for i in 0..64u8 {
        bytes.push(i);
        bytes.push(i + 64);
        bytes.push(i + 128);
    }
    bytes
}

fn tick_to(ppu: &mut PPU, bus: &mut Bus, scanline: u32, dot: u32) -> u32 {
    let mut n = 0;
    while ppu.get_cycles_info() != (scanline, dot) {
        ppu.tick(bus);
        n += 1;
        assert!(n < 200_000);
    }
    n
}

#[test]
fn revert_bits_mirrors_a_byte() {
    assert_eq!(revert_bits(0b0000_0001), 0b1000_0000);
    assert_eq!(revert_bits(0b1100_1010), 0b0101_0011);
    assert_eq!(revert_bits(0xFF), 0xFF);
    assert_eq!(revert_bits(0x00), 0x00);
    for v in 0..=255u8 {
        assert_eq!(revert_bits(revert_bits(v)), v);
        assert_eq!(revert_bits(v), v.reverse_bits());
    }
}

#[test]
fn frame_pixels_are_bgra() {
    let mut frame = Frame::new(4, 2);
    assert_eq!(frame.get_texture_buffer().len(), 32);
    let mut ppu = PPU::new();
    ppu.load_palette(&test_palette()).unwrap();
    assert_eq!(frame.width, 4);
    assert_eq!(frame.height, 2);
    frame.pixels[0] = 9;
    frame.clear();
    assert_eq!(frame.get_texture_buffer(), &vec![0u8; 32]);
    let info = ppu.render_info();
    assert_eq!((info.frame_w, info.frame_h), (256, 240));
    assert_eq!(ppu.get_frame().get_texture_buffer().len(), 256 * 240 * 4);
}

#[test]
fn palette_from_bytes() {
    let p = Palette::from_bytes(&test_palette()).unwrap();
    assert_eq!((p.color[0].R, p.color[0].G, p.color[0].B), (0, 64, 128));
    assert_eq!((p.color[63].R, p.color[63].G, p.color[63].B), (63, 127, 191));
    let mut short = test_palette();
    short.pop();
    let e = Palette::from_bytes(&short).err().unwrap();
    assert_eq!(e.len, 191);
    let mut p = Palette::new();
    assert_eq!(p.color[17].G, 0);
    assert!(p.change_from_bytes(&short).is_err());
    assert_eq!(p.color[17].G, 0);
    let mut long = test_palette();
    long.push(0xFF);
    p.change_from_bytes(&long).unwrap();
    assert_eq!(p.color[17].G, 81);
    let c = NesColor { R: 1, G: 2, B: 3 };
    assert_eq!((c.R, c.G, c.B), (1, 2, 3));
}

#[test]
fn render_registers_basics() {
    let mut r = Register::new();
    assert_eq!(r.oam_cur, 0);
    assert_eq!(r.oam_secondary[7].y, 0xFF);
    r.latch_PT = [0xAB, 0xCD];
    r.AT_byte = 0x5A;
    r.shift_back_16 = [0x1234, 0x5678];
    r.load_shift_reg();
    assert_eq!(r.shift_back_16, [0xAB34, 0xCD78]);
    assert_eq!(r.shift_back_8, [0x5A, 0x5A]);
    r.shift_back_reg();
    assert_eq!(r.shift_back_16, [0x559A, 0x66BC]);
    let sprite = Oam { y: 10, tile: 1, attr: 2, x: 3, is_sprite0: true };
    for i in 0..8 {
        assert!(r.oam_add(sprite));
        assert_eq!(r.oam_cur, i + 1);
    }
    assert!(!r.oam_add(sprite));
    assert_eq!(r.oam_secondary[7].x, 3);
    r.oam_clear_secondary();
    assert_eq!(r.oam_cur, 0);
    assert_eq!(r.oam_secondary[0].y, 0xFF);
    assert!(!r.oam_secondary[0].is_sprite0);
    r.sprites[0].x = 2;
    r.sprites[1].x = 0;
    r.sprites[7].x = 255;
    r.counter_dec();
    assert_eq!((r.sprites[0].x, r.sprites[1].x, r.sprites[7].x), (1, 0, 254));
    let free = Oam::new();
    assert_eq!((free.y, free.tile, free.attr, free.x, free.is_sprite0), (0xFF, 0xFF, 0xFF, 0xFF, false));
}

#[test]
fn ppu_memory_power_on() {
    let m = PPUMemory::new();
    assert_eq!((m.read_ctrl(), m.read_mask(), m.read_status()), (0, 0, 0));
    assert!(!m.get_nmi_output());
    assert!(!m.get_nmi_pending());
    assert_eq!(m.vram.data.len(), 0x1000);
    assert_eq!(m.oam.data.len(), 256);
    assert_eq!(m.palette.data.len(), 32);
    assert_eq!(m.mirroring(0x2400), 0x000);
    assert_eq!(m.mirroring(0x2C01), 0x801);
    assert_eq!(m.mirroring(0x1234), 0x1234);
    assert_eq!(PPUMemory::palette_index(0x3F10), 0x00);
    assert_eq!(PPUMemory::palette_index(0x3F1D), 0x1D);
}

#[test]
fn status_flags_set_and_clear() {
    let mut m = PPUMemory::new();
    m.set_interupt(true);
    m.set_sprite_overflow(true);
    m.set_sprite_0hit(true);
    assert_eq!(m.read_status(), 0xE0);
    assert!(m.get_nmi_pending());
    m.set_sprite_overflow(false);
    assert_eq!(m.read_status(), 0xC0);
    m.nmi();
    assert!(!m.get_nmi_pending());
    assert_eq!(m.read_status(), 0xC0);
    m.set_interupt(false);
    m.set_sprite_0hit(false);
    assert_eq!(m.read_status(), 0x00);
}

#[test]
fn a_scanline_is_341_ticks() {
    let mut bus = picture_bus();
    let mut ppu = PPU::new();
    assert_eq!(ppu.get_cycles_info(), (0, 0));
    let mut ends = 0;
    for i in 0..341 {
        let ended = ppu.tick(&mut bus);
        assert_eq!(ended, i == 340);
        if ended {
            ends += 1;
        }
    }
    assert_eq!(ends, 1);
    assert_eq!(ppu.get_cycles_info(), (1, 0));
    // From the middle of a scanline the dot is the same 341 ticks later.
    for _ in 0..100 {
        ppu.tick(&mut bus);
    }
    assert_eq!(ppu.get_cycles_info(), (1, 100));
    for _ in 0..341 {
        ppu.tick(&mut bus);
    }
    assert_eq!(ppu.get_cycles_info(), (2, 100));
}

#[test]
fn a_frame_is_262_scanlines() {
    let mut bus = picture_bus();
    let mut ppu = PPU::new();
    let mut vblank_starts = 0;
    let mut line_ends = 0;
    let mut was_set = false;
    for _ in 0..262 * 341 {
        if ppu.tick(&mut bus) {
            line_ends += 1;
        }
        let set = bus.ppu_mem.read_status() & 0x80 != 0;
        if set && !was_set {
            vblank_starts += 1;
            assert_eq!(ppu.get_cycles_info(), (241, 2));
        }
        was_set = set;
    }
    assert_eq!(line_ends, 262);
    assert_eq!(vblank_starts, 1);
    assert_eq!(ppu.frame_n, 1);
    assert_eq!(ppu.get_cycles_info(), (0, 0));
    assert!(ppu.get_frame_status());
    // The flag was cleared on the pre-render scanline.
    assert_eq!(bus.ppu_mem.read_status() & 0x80, 0);
    ppu.tick(&mut bus);
    assert!(!ppu.get_frame_status());
}

#[test]
fn vblank_flag_timing() {
    let mut bus = picture_bus();
    let mut ppu = PPU::new();
    tick_to(&mut ppu, &mut bus, 241, 1);
    assert_eq!(bus.ppu_mem.read_status() & 0x80, 0);
    assert!(!bus.ppu_mem.get_nmi_pending());
    ppu.tick(&mut bus);
    assert_eq!(bus.ppu_mem.read_status() & 0x80, 0x80);
    assert!(bus.ppu_mem.get_nmi_pending());
    bus.ppu_mem.set_sprite_0hit(true);
    bus.ppu_mem.set_sprite_overflow(true);
    tick_to(&mut ppu, &mut bus, 261, 1);
    assert_eq!(bus.ppu_mem.read_status() & 0xE0, 0xE0);
    assert_eq!(ppu.frame_n, 0);
    ppu.tick(&mut bus);
    assert_eq!(bus.ppu_mem.read_status() & 0xE0, 0x00);
    assert!(!bus.ppu_mem.get_nmi_pending());
    assert_eq!(ppu.frame_n, 1);
    assert!(ppu.get_frame_status());
}

#[test]
fn backdrop_colour_fills_the_picture_when_rendering_is_off() {
    let mut bus = picture_bus();
    let mut ppu = PPU::new();
    ppu.load_palette(&test_palette()).unwrap();
    bus.ppu_write(0x3F00, 0x21);
    tick_to(&mut ppu, &mut bus, 0, 0);
    for _ in 0..262 * 341 {
        ppu.tick(&mut bus);
    }
    let px = ppu.get_frame().get_texture_buffer();
    for at in [0usize, 4 * 255, 4 * (256 * 120 + 128), 4 * (256 * 240 - 1)] {
        assert_eq!(&px[at..at + 4], &[0x21 + 128, 0x21 + 64, 0x21, 255]);
    }
}

#[test]
fn greyscale_masks_the_palette_entry() {
    let mut bus = picture_bus();
    let mut ppu = PPU::new();
    ppu.load_palette(&test_palette()).unwrap();
    bus.ppu_write(0x3F00, 0x2C);
    bus.write(0x2001, 0x01);
    for _ in 0..341 {
        ppu.tick(&mut bus);
    }
    let px = ppu.get_frame().get_texture_buffer();
    assert_eq!(&px[0..4], &[0x20 + 128, 0x20 + 64, 0x20, 255]);
}

fn fill_nametable(bus: &mut Bus, tile: u8) {
    for a in 0x2000..0x23C0usize {
        bus.ppu_write(a, tile);
    }
    for a in 0x2800..0x2BC0usize {
        bus.ppu_write(a, tile);
    }
}

#[test]
fn background_tiles_reach_the_picture() {
    let mut bus = picture_bus();
    let mut ppu = PPU::new();
    ppu.load_palette(&test_palette()).unwrap();
    fill_nametable(&mut bus, 1);
    bus.ppu_write(0x3F00, 0x0F);
    bus.ppu_write(0x3F01, 0x16);
    bus.write(0x2001, 0x08);
    // The first frame primes the shifters; look at the second.
    for _ in 0..2 * 262 * 341 {
        ppu.tick(&mut bus);
    }
    let px = ppu.get_frame().get_texture_buffer();
    for (x, y) in [(0usize, 0usize), (8, 0), (0, 100), (100, 50), (255, 239), (16, 30)] {
        let at = 4 * (256 * y + x);
        assert_eq!(&px[at..at + 4], &[0x16 + 128, 0x16 + 64, 0x16, 255]);
    }
}

#[test]
fn sprite_zero_hit() {
    let mut bus = picture_bus();
    let mut ppu = PPU::new();
    fill_nametable(&mut bus, 1);
    // Sprite 0: tile 1, in front, its left edge at x = 16, its top on scanline 30.
    bus.write(0x2003, 0x00);
    for b in [29u8, 1, 0, 16] {
        bus.write(0x2004, b);
    }
    // The other 63 sprites are off the picture.
    for _ in 1..64 {
        for b in [0xF0u8, 0, 0, 0] {
            bus.write(0x2004, b);
        }
    }
    bus.write(0x2001, 0x18);
    // Up to the dot before the sprite's first pixel nothing is hit.
    tick_to(&mut ppu, &mut bus, 30, 17);
    assert_eq!(bus.ppu_mem.read_status() & 0x40, 0);
    // Dot 17 puts out the pixel at x = 16.
    ppu.tick(&mut bus);
    assert_eq!(ppu.get_cycles_info(), (30, 18));
    assert_eq!(bus.ppu_mem.read_status() & 0x40, 0x40);
    // The flag stays until the pre-render scanline.
    tick_to(&mut ppu, &mut bus, 261, 1);
    assert_eq!(bus.ppu_mem.read_status() & 0x40, 0x40);
    ppu.tick(&mut bus);
    assert_eq!(bus.ppu_mem.read_status() & 0x40, 0);
}

#[test]
fn no_sprite_zero_hit_over_a_transparent_background() {
    let mut bus = picture_bus();
    let mut ppu = PPU::new();
    bus.write(0x2003, 0x00);
    for b in [29u8, 1, 0, 16] {
        bus.write(0x2004, b);
    }
    for _ in 1..64 {
        for b in [0xF0u8, 0, 0, 0] {
            bus.write(0x2004, b);
        }
    }
    bus.write(0x2001, 0x18);
    tick_to(&mut ppu, &mut bus, 240, 0);
    assert_eq!(bus.ppu_mem.read_status() & 0x40, 0);
}

#[test]
fn sprites_reach_the_picture_in_front_of_the_background() {
    let mut bus = picture_bus();
    let mut ppu = PPU::new();
    ppu.load_palette(&test_palette()).unwrap();
    fill_nametable(&mut bus, 1);
    bus.ppu_write(0x3F01, 0x16);
    bus.ppu_write(0x3F17, 0x2A);
    bus.write(0x2003, 0x00);
    // Sprite 0: tile 2 (colour 3), palette 1, in front, at x = 40, rows 50 to 57.
    for b in [49u8, 2, 0x01, 40] {
        bus.write(0x2004, b);
    }
    // Sprite 1: the same tile behind the background, at x = 80.
    for b in [49u8, 2, 0x21, 80] {
        bus.write(0x2004, b);
    }
    for _ in 2..64 {
        for b in [0xF0u8, 0, 0, 0] {
            bus.write(0x2004, b);
        }
    }
    bus.write(0x2001, 0x18);
    for _ in 0..2 * 262 * 341 {
        ppu.tick(&mut bus);
    }
    let px = ppu.get_frame().get_texture_buffer();
    let pixel = |x: usize, y: usize| px[4 * (256 * y + x) + 2];
    assert_eq!(pixel(40, 50), 0x2A);
    assert_eq!(pixel(47, 57), 0x2A);
    assert_eq!(pixel(39, 50), 0x16);
    assert_eq!(pixel(48, 50), 0x16);
    assert_eq!(pixel(40, 49), 0x16);
    assert_eq!(pixel(40, 58), 0x16);
    assert_eq!(pixel(80, 50), 0x16);
}

#[test]
fn sprite_overflow_flag() {
    let mut bus = picture_bus();
    let mut ppu = PPU::new();
    bus.write(0x2003, 0x00);
    // Nine sprites on scanline 100, the rest off the picture.
    for i in 0..64u8 {
        let y = if i < 9 { 100 } else { 0xF0 };
        for b in [y, 1, 0, i.wrapping_mul(8)] {
            bus.write(0x2004, b);
        }
    }
    bus.write(0x2001, 0x18);
    tick_to(&mut ppu, &mut bus, 100, 0);
    assert_eq!(bus.ppu_mem.read_status() & 0x20, 0);
    tick_to(&mut ppu, &mut bus, 101, 0);
    assert_eq!(bus.ppu_mem.read_status() & 0x20, 0x20);
    assert_eq!(ppu.reg.oam_cur, 8);
}

#[test]
fn diagnostic_picture_of_the_nametables() {
    let mut bus = picture_bus();
    let mut ppu = PPU::new();
    ppu.load_palette(&test_palette()).unwrap();
    bus.ppu_write(0x2000, 5);
    bus.ppu_write(0x2000 + 33, 36);
    bus.ppu_write(0x2800 + 31 + 31 * 32, 64 + 7);
    ppu.debug_show_nametable(&bus);
    let px = ppu.get_frame().get_texture_buffer();
    let red = |x: usize, y: usize| px[4 * (256 * y + x) + 2];
    assert_eq!(red(0, 0), 5);
    assert_eq!(red(1, 1), 63);
    assert_eq!(red(2, 2), 0);
    // The second nametable mirrors the first and is drawn 35 pixels to the right.
    assert_eq!(red(35, 0), 5);
    assert_eq!(red(31, 35 + 31), 7);
    assert_eq!(red(35 + 31, 35 + 31), 7);
    assert_eq!(px[3], 255);
    assert_eq!(px[4 * (256 * 100 + 100) + 3], 0);
}

/// The red bytes of the first pixels of a row of the picture.
fn row_start(ppu: &PPU, y: usize, n: usize) -> Vec<u8> {
    let px = ppu.get_frame().get_texture_buffer();
    (0..n).map(|x| px[4 * (256 * y + x) + 2]).collect()
}

fn one_tile_picture(scroll_x: u8) -> PPU {
    let mut bus = picture_bus();
    let mut ppu = PPU::new();
    ppu.load_palette(&test_palette()).unwrap();
    // One opaque tile, in column 1 of row 0 of the first nametable.
    bus.ppu_write(0x2001, 1);
    bus.ppu_write(0x3F00, 0x01);
    bus.ppu_write(0x3F01, 0x02);
    bus.write(0x2005, scroll_x);
    bus.write(0x2005, 0);
    bus.write(0x2001, 0x08);
    for _ in 0..2 * 262 * 341 {
        ppu.tick(&mut bus);
    }
    ppu
}

#[test]
fn background_without_scroll() {
    let ppu = one_tile_picture(0);
    let mut expected = vec![1u8; 8];
    expected.extend([2u8; 8]);
    expected.extend([1u8; 8]);
    assert_eq!(row_start(&ppu, 0, 24), expected);
    assert_eq!(row_start(&ppu, 7, 24), expected);
    assert_eq!(row_start(&ppu, 8, 24), vec![1u8; 24]);
}

#[test]
fn coarse_scroll_shifts_the_background_by_tiles() {
    let ppu = one_tile_picture(8);
    let mut expected = vec![2u8; 8];
    expected.extend([1u8; 16]);
    assert_eq!(row_start(&ppu, 0, 24), expected);
    assert_eq!(row_start(&ppu, 3, 24), expected);
}

#[test]
fn fine_scroll_shifts_the_background_by_pixels() {
    let ppu = one_tile_picture(3);
    let mut expected = vec![1u8; 5];
    expected.extend([2u8; 8]);
    expected.extend([1u8; 11]);
    assert_eq!(row_start(&ppu, 0, 24), expected);
    assert_eq!(row_start(&ppu, 5, 24), expected);
}
