use nes_core::apu::mixer::Mixer;
use nes_core::bus::Bus;
use nes_core::cartridge::Cartridge;
use nes_core::controller::basic::{NesController, BUTTON_A, BUTTON_B, BUTTON_DOWN, BUTTON_LEFT, BUTTON_RIGHT, BUTTON_START, BUTTON_UP};
use nes_core::controller::Controller;
use nes_core::mapper::load_rom;
use nes_core::memory::{MemRead, MemWrite};

fn bare_bus() -> Bus {
    Bus::new(NesController::new(0), Mixer::new())
}

fn nrom_bus(vertical: bool) -> Bus {
    let mut rom = vec![0x4E, 0x45, 0x53, 0x1A, 2, 1, if vertical { 1 } else { 0 }, 0];
    rom.extend_from_slice(&[0u8; 8]);
    for i in 0..32 * 1024 {
        rom.push((i % 256) as u8);
    }
    for i in 0..8 * 1024 {
        rom.push((i % 7) as u8);
    }
    let cart = Cartridge::create_from_rom(&rom).unwrap();
    let mut bus = bare_bus();
    bus.load_mapper(load_rom(&cart).unwrap());
    bus
}

#[test]
fn wram_is_mirrored_four_times() {
    let mut bus = bare_bus();
    bus.write(0x0000, 0x11);
    bus.write(0x0FFF, 0x22);
    bus.write(0x1234, 0x33);
    bus.write(0x1FFF, 0x44);
    for base in [0x0000usize, 0x0800, 0x1000, 0x1800] {
        assert_eq!(bus.read(base + 0x000), 0x11);
        assert_eq!(bus.read(base + 0x234), 0x33);
        assert_eq!(bus.read(base + 0x7FF), 0x44);
    }
    // 0x0FFF and 0x1FFF name the same cell: the later write stands.
    assert_eq!(bus.read(0x07FF), 0x44);
    assert_eq!(bus.read(0x0001), 0x00);
}

#[test]
fn unmapped_addresses_read_zero_and_drop_writes() {
    let mut bus = bare_bus();
    bus.write(0x4018, 0x55);
    bus.write(0x401F, 0x55);
    assert_eq!(bus.read(0x4018), 0);
    assert_eq!(bus.read(0x401F), 0);
    assert_eq!(bus.read(0x4014), 0);
    assert_eq!(bus.read(0x12345), 0);
    // An empty cartridge slot reads 0.
    bus.write(0x8000, 1);
    assert_eq!(bus.read(0x8000), 0);
}

#[test]
fn ppu_registers_are_mirrored_every_eight() {
    let mut a = nrom_bus(false);
    let mut b = nrom_bus(false);
    a.write(0x2000, 0x84);
    b.write(0x3FF8, 0x84);
    assert_eq!(a.ppu_mem.ctrl, b.ppu_mem.ctrl);
    assert_eq!(a.ppu_mem.ctrl, 0x84);
    assert!(b.ppu_mem.nmi_output);
    a.write(0x2001, 0x1E);
    b.write(0x2009, 0x1E);
    assert_eq!(b.ppu_mem.mask, 0x1E);
    assert_eq!(a.ppu_mem.mask, b.ppu_mem.mask);
    a.write(0x2006, 0x21);
    a.write(0x2006, 0x08);
    b.write(0x3006, 0x21);
    b.write(0x2FFE, 0x08);
    assert_eq!(a.ppu_mem.v, 0x2108);
    assert_eq!(b.ppu_mem.v, 0x2108);
    a.write(0x2007, 0x77);
    b.write(0x3FFF, 0x77);
    assert_eq!(a.ppu_read(0x2108), 0x77);
    assert_eq!(b.ppu_read(0x2108), 0x77);
    assert_eq!(a.ppu_mem.v, b.ppu_mem.v);
    assert_eq!(a.ppu_mem.status, b.ppu_mem.status);
}

#[test]
fn ppustatus_read_clears_vblank_and_toggle() {
    let mut bus = nrom_bus(false);
    bus.ppu_mem.set_interupt(true);
    bus.ppu_mem.set_sprite_0hit(true);
    bus.write(0x2006, 0x3F);
    assert!(bus.ppu_mem.w);
    let low = bus.ppu_mem.status & 0x1F;
    let s = bus.read(0x2002);
    assert_eq!(s & 0xE0, 0xC0);
    assert_eq!(s & 0x1F, low);
    assert!(!bus.ppu_mem.w);
    assert_eq!(bus.ppu_mem.status & 0x80, 0);
    assert_eq!(bus.ppu_mem.status & 0x40, 0x40);
    // A second read, at a mirror, finds the flag cleared.
    assert_eq!(bus.read(0x3FFA) & 0x80, 0);
}

#[test]
fn ppustatus_read_right_after_power_on() {
    let mut bus = bare_bus();
    assert_eq!(bus.read(0x2002), 0);
    assert!(!bus.ppu_mem.w);
    assert_eq!(bus.ppu_mem.status & 0x80, 0);
}

#[test]
fn palette_mirrors_are_aliases() {
    let mut bus = nrom_bus(false);
    for (mirror, base) in [(0x3F10usize, 0x3F00usize), (0x3F14, 0x3F04), (0x3F18, 0x3F08), (0x3F1C, 0x3F0C)] {
        bus.ppu_write(mirror, 0x2A);
        assert_eq!(bus.ppu_read(base), 0x2A);
        bus.ppu_write(base, 0x15);
        assert_eq!(bus.ppu_read(mirror), 0x15);
    }
    // Other sprite palette cells are cells of their own.
    bus.ppu_write(0x3F11, 0x01);
    bus.ppu_write(0x3F01, 0x02);
    assert_eq!(bus.ppu_read(0x3F11), 0x01);
    assert_eq!(bus.ppu_read(0x3F01), 0x02);
    // The palette repeats every 32 bytes up to 0x3FFF.
    assert_eq!(bus.ppu_read(0x3F31), 0x01);
    assert_eq!(bus.ppu_read(0x3FF0), 0x15);
}

#[test]
fn nametable_mirroring_horizontal_and_vertical() {
    let mut h = nrom_bus(false);
    h.ppu_write(0x2000, 1);
    h.ppu_write(0x2800, 2);
    assert_eq!(h.ppu_read(0x2400), 1);
    assert_eq!(h.ppu_read(0x2C00), 2);
    assert_eq!(h.ppu_read(0x3000), 1);
    let mut v = nrom_bus(true);
    v.ppu_write(0x2000, 1);
    v.ppu_write(0x2400, 2);
    assert_eq!(v.ppu_read(0x2800), 1);
    assert_eq!(v.ppu_read(0x2C00), 2);
    assert_eq!(v.ppu_read(0x3400), 2);
}

#[test]
fn pattern_tables_come_from_the_cartridge() {
    let bus = nrom_bus(false);
    assert_eq!(bus.ppu_read(0x0000), 0);
    assert_eq!(bus.ppu_read(0x0008), 1);
    assert_eq!(bus.ppu_read(0x4000), 0);
}

#[test]
fn ppudata_access_steps_the_address() {
    let mut bus = nrom_bus(false);
    bus.write(0x2006, 0x20);
    bus.write(0x2006, 0x00);
    bus.write(0x2007, 0xA1);
    bus.write(0x2007, 0xA2);
    assert_eq!(bus.ppu_mem.v, 0x2002);
    bus.write(0x2000, 0x04);
    bus.write(0x2007, 0xA3);
    assert_eq!(bus.ppu_mem.v, 0x2022);
    bus.write(0x2006, 0x20);
    bus.write(0x2006, 0x00);
    assert_eq!(bus.read(0x2007), 0xA1);
    assert_eq!(bus.ppu_mem.v, 0x2020);
    bus.write(0x2000, 0x00);
    bus.write(0x2006, 0x20);
    bus.write(0x2006, 0x01);
    assert_eq!(bus.read(0x2007), 0xA2);
    assert_eq!(bus.read(0x2007), 0xA3);
}

#[test]
fn ppuscroll_and_ppuctrl_fill_t() {
    let mut bus = bare_bus();
    bus.write(0x2000, 0x03);
    assert_eq!(bus.ppu_mem.t, 0x0C00);
    assert_eq!(bus.ppu_mem.ctrl, 0x00);
    bus.write(0x2005, 0x7D);
    assert_eq!(bus.ppu_mem.x, 5);
    assert_eq!(bus.ppu_mem.t, 0x0C0F);
    assert!(bus.ppu_mem.w);
    bus.write(0x2005, 0x5E);
    assert!(!bus.ppu_mem.w);
    // Fine Y 6, coarse Y 11.
    assert_eq!(bus.ppu_mem.t, 0x6C0F | (11 << 5));
}

#[test]
fn oamdata_writes_step_the_sprite_address() {
    let mut bus = bare_bus();
    bus.write(0x2003, 0xFE);
    bus.write(0x2004, 1);
    bus.write(0x2004, 2);
    bus.write(0x2004, 3);
    assert_eq!(bus.ppu_mem.oam_addr, 0x01);
    assert_eq!(bus.ppu_mem.oam_read(63, 2), 1);
    assert_eq!(bus.ppu_mem.oam_read(63, 3), 2);
    assert_eq!(bus.ppu_mem.oam_read(0, 0), 3);
    bus.write(0x2003, 0xFF);
    assert_eq!(bus.read(0x2004), 2);
}

#[test]
fn oam_dma_copies_a_page_in_order() {
    let mut bus = bare_bus();
    for i in 0..256usize {
        bus.write(0x0300 + i, (i as u8) ^ 0x5A);
    }
    bus.write(0x4014, 0x03);
    assert!(bus.get_oam_dma_state());
    let mut ticks = 0;
    while bus.get_oam_dma_state() {
        bus.oam_dma_tick();
        ticks += 1;
    }
    assert_eq!(ticks, 256);
    for i in 0..256usize {
        assert_eq!(bus.ppu_mem.oam.data[i], (i as u8) ^ 0x5A);
    }
    assert_eq!(bus.ppu_mem.oam_addr, 0);
}

#[test]
fn oam_dma_starts_at_the_sprite_address() {
    let mut bus = bare_bus();
    for i in 0..256usize {
        bus.write(0x0700 + i, i as u8);
    }
    bus.write(0x2003, 0x10);
    bus.write(0x4014, 0x07);
    for _ in 0..256 {
        bus.oam_dma_tick();
    }
    assert!(!bus.get_oam_dma_state());
    assert_eq!(bus.ppu_mem.oam.data[0x10], 0);
    assert_eq!(bus.ppu_mem.oam.data[0x11], 1);
    assert_eq!(bus.ppu_mem.oam.data[0x0F], 0xFF);
    assert_eq!(bus.ppu_mem.oam_addr, 0x10);
}

#[test]
fn oam_dma_from_the_register_window_does_not_crash() {
    let mut bus = nrom_bus(false);
    bus.write(0x4014, 0x20);
    for _ in 0..256 {
        bus.oam_dma_tick();
    }
    assert!(!bus.get_oam_dma_state());
    bus.write(0x4014, 0x40);
    for _ in 0..256 {
        bus.oam_dma_tick();
    }
    assert!(!bus.get_oam_dma_state());
}

#[test]
fn controller_strobe() {
    let mut bus = bare_bus();
    bus.write(0x4016, 1);
    bus.input.set_input(BUTTON_A);
    bus.input.update();
    bus.write(0x4016, 0);
    let mut bits = Vec::new();
    for _ in 0..8 {
        bits.push(bus.read(0x4016) & 1);
    }
    assert_eq!(bits, vec![1, 0, 0, 0, 0, 0, 0, 0]);
    // Behind the eighth bit the port reads 1.
    assert_eq!(bus.read(0x4016), 1);
}

#[test]
fn controller_reports_in_button_order() {
    let mut pad = NesController::new(0);
    pad.set_input(BUTTON_B | BUTTON_START | BUTTON_UP | BUTTON_RIGHT);
    pad.update();
    pad.write(0x4016, 1);
    // Under strobe every read is button A.
    assert_eq!(pad.read(0x4016), 0);
    assert_eq!(pad.read(0x4016), 0);
    pad.write(0x4016, 0);
    let bits: Vec<u8> = (0..8).map(|_| pad.read(0x4016)).collect();
    assert_eq!(bits, vec![0, 1, 0, 1, 1, 0, 0, 1]);
    // The other port is not this pad's.
    assert_eq!(pad.read(0x4017), 0);
}

#[test]
fn controller_latches_at_the_falling_strobe() {
    let mut pad = NesController::new(0);
    pad.set_input(BUTTON_A);
    pad.update();
    pad.write(0x4016, 1);
    pad.write(0x4016, 0);
    // A release after the latch is not seen until the next strobe.
    pad.set_input(0);
    pad.update();
    assert_eq!(pad.read(0x4016), 1);
    pad.write(0x4016, 1);
    pad.write(0x4016, 0);
    assert_eq!(pad.read(0x4016), 0);
}

#[test]
fn controller_drops_the_second_of_opposite_directions() {
    let mut pad = NesController::new(0);
    pad.set_input(BUTTON_UP | BUTTON_DOWN | BUTTON_LEFT | BUTTON_RIGHT);
    pad.update();
    assert_eq!(pad.DPad, (true, false, true, false));
    assert!(pad.dpad_active());
    assert_eq!(pad.held(), BUTTON_UP | BUTTON_LEFT);
    pad.set_opposite_dpad(true);
    pad.update();
    assert_eq!(pad.DPad, (true, true, true, true));
    pad.set_opposite_dpad(false);
    pad.set_input(BUTTON_DOWN | BUTTON_RIGHT);
    pad.update();
    assert_eq!(pad.DPad, (false, true, false, true));
}

#[test]
fn controller_on_port_two() {
    let mut pad = NesController::new(1);
    pad.set_input(BUTTON_A);
    pad.update();
    pad.write(0x4016, 1);
    pad.write(0x4016, 0);
    assert_eq!(pad.read(0x4016), 0);
    assert_eq!(pad.read(0x4017), 1);
    // A write to 0x4017 is not a strobe.
    pad.write(0x4017, 1);
    assert!(!pad.strobe);
}

#[test]
fn apu_registers_take_writes() {
    let mut bus = bare_bus();
    bus.write(0x4000, 0xBF);
    bus.write(0x4003, 0x08);
    bus.write(0x4006, 0x12);
    bus.write(0x400A, 0x34);
    bus.write(0x400C, 0xFF);
    bus.write(0x4010, 0xFF);
    bus.write(0x4015, 0xFF);
    bus.write(0x4017, 0xFF);
    assert_eq!(bus.apu_mem.pulse1_channel, [0xBF, 0, 0, 0x08]);
    assert_eq!(bus.apu_mem.pulse2_channel, [0, 0, 0x12, 0]);
    assert_eq!(bus.apu_mem.triangle_channel, [0, 0x34, 0]);
    assert_eq!(bus.apu_mem.noise_channel, [0x3F, 0, 0]);
    assert_eq!(bus.apu_mem.dmc_channel, [0xCF, 0, 0, 0]);
    assert_eq!(bus.apu_mem.status, 0x1F);
    assert_eq!(bus.apu_mem.frame_counter, 0xC0);
    assert_eq!(bus.apu_mem.reload, 0b001);
    assert_eq!(bus.read(0x4015), 0x1F);
    assert_eq!(bus.read(0x4000), 0);
    // 0x4009 and 0x400D hold no register.
    bus.write(0x4009, 0x99);
    bus.write(0x400D, 0x99);
    assert_eq!(bus.apu_mem.triangle_channel, [0, 0x34, 0]);
    assert_eq!(bus.apu_mem.get_channel_reg(0x4008), vec![0, 0x34, 0]);
    assert_eq!(bus.apu_mem.get_channel_reg(0x4001), vec![0]);
}

#[test]
fn bus_snapshot_round_trip() {
    let mut bus = nrom_bus(false);
    bus.write(0x0010, 0xAB);
    bus.write(0x6000, 0xCD);
    bus.ppu_write(0x2000, 0xEF);
    let state = bus.save_state();
    bus.write(0x0010, 0x00);
    bus.write(0x6000, 0x00);
    bus.ppu_write(0x2000, 0x00);
    bus.write(0x2001, 0x18);
    bus.load_state(&state);
    assert_eq!(bus.read(0x0010), 0xAB);
    assert_eq!(bus.read(0x6000), 0xCD);
    assert_eq!(bus.ppu_read(0x2000), 0xEF);
    assert_eq!(bus.ppu_mem.mask, 0x00);
}
