use nes_core::apu::mixer::Mixer;
use nes_core::cartridge::Cartridge;
use nes_core::clock::SlaveClock;
use nes_core::controller::basic::{NesController, BUTTON_A, BUTTON_START};
use nes_core::controller::Controller;
use nes_core::memory::{MemRead, MemWrite};
use nes_core::nes::{DebugEvent, Nes};
use nes_core::save_state::SaveState;

/// A mapper 0 dump of 40 KiB: 32 KiB of program and 8 KiB of characters.
/// The program is `code` at 0x8000 and NOPs elsewhere; the three vectors
/// hold `nmi`, `reset` and `irq`.
fn dump(mapper: u8, code: &[u8], nmi: u16, reset: u16, irq: u16) -> Vec<u8> {
    let mut rom = vec![0x4E, 0x45, 0x53, 0x1A, 2, 1, (mapper & 0x0F) << 4, mapper & 0xF0];
    rom.extend_from_slice(&[0u8; 8]);
    let mut prg = vec![0xEAu8; 32 * 1024];
    prg[..code.len()].copy_from_slice(code);
    for (at, v) in [(0x7FFA, nmi), (0x7FFC, reset), (0x7FFE, irq)] {
        prg[at] = (v & 0xFF) as u8;
        prg[at + 1] = (v >> 8) as u8;
    }
    rom.extend_from_slice(&prg);
    let mut chr = vec![0u8; 8 * 1024];
    for row in 0..8 {
        chr[16 + row] = 0xFF;
    }
    rom.extend_from_slice(&chr);
    rom
}

fn machine(code: &[u8]) -> Nes {
    let rom = dump(0, code, 0x8000, 0x8000, 0x8000);
    let cart = Cartridge::create_from_rom(&rom).unwrap();
    let mut nes = Nes::new(cart, NesController::new(0), Mixer::new()).unwrap();
    nes.reset();
    nes
}

/// Four NOPs and a jump back: a loop of eleven cycles.
const IDLE_LOOP: [u8; 7] = [0xEA, 0xEA, 0xEA, 0xEA, 0x4C, 0x00, 0x80];

#[test]
fn rom_load_and_reset_vector() {
    let rom = dump(0, &IDLE_LOOP, 0x9000, 0xC123, 0xC123);
    assert_eq!(rom.len(), 16 + 40 * 1024);
    let cart = Cartridge::create_from_rom(&rom).unwrap();
    let mut nes = Nes::new(cart, NesController::new(0), Mixer::new()).unwrap();
    nes.reset();
    let last = rom.len() - 8 * 1024;
    let vector = rom[last - 2] as u16 | ((rom[last - 1] as u16) << 8);
    assert_eq!(vector, 0xC123);
    assert_eq!(nes.cpu.reg.PC, vector);
    assert_eq!(nes.cpu.reg.S, 0xFD);
    assert_eq!(nes.cpu.reg.P.value, 0x24);
}

#[test]
fn reset_reads_the_reset_vector() {
    let rom = dump(0, &IDLE_LOOP, 0x9000, 0x8000, 0xA000);
    let cart = Cartridge::create_from_rom(&rom).unwrap();
    let mut nes = Nes::new(cart, NesController::new(0), Mixer::new()).unwrap();
    nes.reset();
    assert_eq!(nes.cpu.reg.PC, 0x8000);
    nes.debug_reset();
    assert_eq!(nes.cpu.reg.PC, 0xC000);
}

#[test]
fn unsupported_mapper_aborts_construction() {
    let rom = dump(5, &IDLE_LOOP, 0x8000, 0x8000, 0x8000);
    let cart = Cartridge::create_from_rom(&rom).unwrap();
    let e = Nes::new(cart, NesController::new(0), Mixer::new()).err().unwrap();
    assert_eq!(e.mapper_num, 5);
}

#[test]
fn dividers_fire_in_their_ratio() {
    let mut c = SlaveClock::new(3);
    assert_eq!((c.div, c.dec), (3, 2));
    let fires: Vec<bool> = (0..7).map(|_| c.tick()).collect();
    assert_eq!(fires, vec![false, false, true, false, false, true, false]);
    c.reset();
    assert_eq!(c.dec, 3);
    let fires: Vec<bool> = (0..5).map(|_| c.tick()).collect();
    assert_eq!(fires, vec![false, false, false, true, false]);
    let mut one = SlaveClock::new(1);
    assert!(one.tick() && one.tick());
}

#[test]
fn clock_ratios() {
    let mut nes = machine(&IDLE_LOOP);
    nes.tick_n(6);
    assert_eq!(nes.ppu.get_cycles_info(), (0, 6));
    assert_eq!(nes.cpu.get_cycles_frame(), 2);
    assert_eq!(nes.bus.apu_mem.frame_ticks, 1);
    nes.tick_n(600 - 6);
    assert_eq!(nes.ppu.get_cycles_info(), (1, 600 - 341));
    assert_eq!(nes.cpu.get_cycles_frame(), 200);
    assert_eq!(nes.bus.apu_mem.frame_ticks, 100);
}

#[test]
fn tick_scanline_runs_to_the_end_of_the_line() {
    let mut nes = machine(&IDLE_LOOP);
    nes.tick_scanline();
    assert_eq!(nes.ppu.get_cycles_info(), (1, 0));
    assert_eq!(nes.cpu.get_cycles_frame(), 113);
    nes.tick_n(10);
    nes.tick_scanline();
    assert_eq!(nes.ppu.get_cycles_info(), (2, 0));
    nes.tick_scanline_n(5);
    assert_eq!(nes.ppu.get_cycles_info(), (7, 0));
    assert_eq!(nes.cpu.get_cycles_frame(), 7 * 341 / 3);
}

#[test]
fn frame_timing() {
    let mut nes = machine(&IDLE_LOOP);
    nes.tick_frame();
    assert_eq!(nes.ppu.get_cycles_info(), (0, 0));
    assert_eq!(nes.ppu.frame_n, 1);
    assert!(nes.ppu.get_frame_status());
    assert_eq!(nes.cpu.get_cycles_frame(), 89342 / 3);
    assert_eq!(nes.get_frame().get_texture_buffer().len(), 256 * 240 * 4);
    let info = nes.ppu_rendering_info();
    assert_eq!((info.frame_w, info.frame_h), (256, 240));
    nes.tick_frame();
    assert_eq!(nes.ppu.get_cycles_info(), (0, 0));
    assert_eq!(nes.ppu.frame_n, 2);
}

#[test]
fn tick_frame_from_the_middle_of_a_frame() {
    let mut nes = machine(&IDLE_LOOP);
    nes.tick_n(341 * 261 + 100);
    assert_eq!(nes.ppu.get_cycles_info(), (261, 100));
    nes.tick_frame();
    assert_eq!(nes.ppu.get_cycles_info(), (0, 0));
    assert_eq!(nes.ppu.frame_n, 1);
}

#[test]
fn tick_frame_takes_over_the_input() {
    let mut nes = machine(&IDLE_LOOP);
    nes.bus.input.set_input(BUTTON_A | BUTTON_START);
    assert!(!nes.bus.input.A);
    nes.tick_frame();
    assert!(nes.bus.input.A);
    assert!(nes.bus.input.Start);
    assert!(!nes.bus.input.B);
}

#[test]
fn program_reads_the_controller() {
    // LDA #$01; STA $4016; LDA #$00; STA $4016; LDA $4016; STA $00; LDA $4016; STA $01; JMP *
    let code = [0xA9, 0x01, 0x8D, 0x16, 0x40, 0xA9, 0x00, 0x8D, 0x16, 0x40, 0xAD, 0x16, 0x40, 0x85, 0x00, 0xAD, 0x16, 0x40, 0x85, 0x01, 0x4C, 0x14, 0x80];
    let mut nes = machine(&code);
    nes.bus.input.set_input(BUTTON_A);
    nes.bus.input.update();
    nes.tick_n(3 * 40);
    assert_eq!(nes.bus.read(0x0000), 1);
    assert_eq!(nes.bus.read(0x0001), 0);
}

#[test]
fn nmi_reaches_the_cpu_once_a_frame() {
    // Reset: LDA #$80; STA $2000; loop.  NMI at 0x8010: INC $10; RTI.
    let mut code = vec![0xA9, 0x80, 0x8D, 0x00, 0x20, 0x4C, 0x05, 0x80];
    code.resize(0x10, 0xEA);
    code.extend_from_slice(&[0xE6, 0x10, 0x40]);
    let rom = dump(0, &code, 0x8010, 0x8000, 0x8000);
    let cart = Cartridge::create_from_rom(&rom).unwrap();
    let mut nes = Nes::new(cart, NesController::new(0), Mixer::new()).unwrap();
    nes.reset();
    nes.tick_frame();
    assert_eq!(nes.bus.read(0x0010), 1);
    nes.tick_frame();
    nes.tick_frame();
    assert_eq!(nes.bus.read(0x0010), 3);
}

#[test]
fn program_driven_oam_dma() {
    // LDX #$00; loop: TXA; STA $0200,X; INX; BNE loop; LDA #$02; STA $4014; JMP *
    let code = [0xA2, 0x00, 0x8A, 0x9D, 0x00, 0x02, 0xE8, 0xD0, 0xF9, 0xA9, 0x02, 0x8D, 0x14, 0x40, 0x4C, 0x0E, 0x80];
    let mut nes = machine(&code);
    nes.tick_n(3 * 4000);
    assert!(!nes.bus.get_oam_dma_state());
    for i in 0..256usize {
        assert_eq!(nes.bus.ppu_mem.oam.data[i], i as u8);
    }
    assert_eq!(nes.cpu.reg.PC, 0x800E);
}

#[test]
fn snapshot_restores_what_it_holds() {
    // loop: INC $00; JMP loop
    let mut nes = machine(&[0xE6, 0x00, 0x4C, 0x00, 0x80]);
    nes.tick_n(300);
    let saved: SaveState = nes.debug_save_state();
    let count = nes.bus.read(0x0000);
    let pc = nes.cpu.reg.PC;
    assert!(count > 0);
    nes.tick_n(3000);
    nes.bus.write(0x2001, 0x1E);
    nes.bus.ppu_write(0x2005, 0x77);
    assert_ne!(nes.bus.read(0x0000), count);
    let position = nes.ppu.get_cycles_info();
    let cycles = nes.cpu.get_cycles_frame();
    nes.debug_load_state(&saved);
    assert_eq!(nes.bus.read(0x0000), count);
    assert_eq!(nes.cpu.reg.PC, pc);
    assert_eq!(nes.bus.ppu_mem.mask, 0);
    assert_eq!(nes.bus.ppu_read(0x2005), 0);
    // What a snapshot does not hold stays.
    assert_eq!(nes.ppu.get_cycles_info(), position);
    assert_eq!(nes.cpu.get_cycles_frame(), cycles);
    // The snapshot can be put back again.
    nes.tick_n(500);
    nes.debug_load_state(&saved.clone());
    assert_eq!(nes.bus.read(0x0000), count);
}

#[test]
fn snapshot_round_trip_gives_the_same_frame() {
    let mut nes = machine(&IDLE_LOOP);
    for a in 0x2000..0x23C0usize {
        nes.bus.ppu_write(a, (a % 2) as u8);
    }
    nes.bus.ppu_write(0x3F00, 0x0F);
    nes.bus.ppu_write(0x3F01, 0x30);
    nes.bus.write(0x2001, 0x0A);
    let mut palette = Vec::new();
    for i in 0..192u32 {
        palette.push((i * 7 % 256) as u8);
    }
    nes.load_palette(&palette).unwrap();
    // Three frames are a whole number of rounds of the eleven-cycle loop
    // and of the dividers, so that only what a snapshot holds can differ.
    let k = 3 * 89342;
    nes.tick_n(k);
    let saved = nes.debug_save_state();
    nes.tick_n(k);
    let first: Vec<u8> = nes.get_frame().get_texture_buffer().clone();
    let after_first = (nes.cpu.reg.PC, nes.ppu.get_cycles_info(), nes.cpu.cycles_since_last_exec);
    nes.debug_load_state(&saved);
    nes.tick_n(k);
    let second: Vec<u8> = nes.get_frame().get_texture_buffer().clone();
    assert_eq!(after_first, (nes.cpu.reg.PC, nes.ppu.get_cycles_info(), nes.cpu.cycles_since_last_exec));
    assert!(first == second);
    assert!(first.iter().any(|b| *b != 0));
}

#[test]
fn mute_event_toggles_the_queue() {
    let mut nes = machine(&IDLE_LOOP);
    assert!(!nes.mute);
    nes.tick_n(6 * 25);
    assert_eq!(nes.bus.mixer.samples.len(), 1);
    nes.debug_event(DebugEvent::MUTE_GAME);
    assert!(nes.mute && nes.bus.mixer.mute);
    nes.tick_n(6 * 50);
    assert_eq!(nes.bus.mixer.samples.len(), 1);
    nes.debug_event(DebugEvent::SHOW_CPU_WRAM);
    assert!(nes.mute);
    nes.debug_event(DebugEvent::MUTE_GAME);
    assert!(!nes.mute && !nes.bus.mixer.mute);
    assert!(nes.bus.mixer.samples.is_empty());
    nes.tick_n(6 * 25);
    assert_eq!(nes.bus.mixer.samples.len(), 1);
}

#[test]
fn cpu_debug_collects_trace_lines() {
    let mut nes = machine(&[0xA9, 0x05, 0xAA, 0x4C, 0x03, 0x80]);
    nes.set_cpu_debug(true);
    nes.tick_n(3 * 9);
    let lines = nes.take_trace();
    let seen: Vec<(u16, u8, u8)> = lines.iter().map(|t| (t.cpu.pc, t.cpu.opcode, t.cpu.a)).collect();
    assert_eq!(seen, vec![(0x8000, 0xA9, 0), (0x8002, 0xAA, 5), (0x8003, 0x4C, 5), (0x8003, 0x4C, 5)]);
    assert!(nes.take_trace().is_empty());
    nes.set_cpu_debug(false);
    nes.tick_n(3 * 8);
    assert!(nes.take_trace().is_empty());
}

#[test]
fn palette_loading() {
    let mut nes = machine(&IDLE_LOOP);
    let e = nes.load_palette(&[0u8; 100]).err().unwrap();
    assert_eq!(e.len, 100);
    let mut bytes = vec![0u8; 192];
    bytes[3] = 11;
    bytes[4] = 22;
    bytes[5] = 33;
    nes.load_palette(&bytes).unwrap();
    let c = nes.ppu.palette.color[1];
    assert_eq!((c.R, c.G, c.B), (11, 22, 33));
}

#[test]
fn trace_of_the_opening_of_the_cpu_test_cartridge() {
    // The first instructions of the customary CPU test cartridge, at the
    // addresses where it has them, in a 16 KiB program that shows at 0xC000.
    let mut rom = vec![0x4E, 0x45, 0x53, 0x1A, 1, 1, 0, 0];
    rom.extend_from_slice(&[0u8; 8]);
    let mut prg = vec![0xEAu8; 16 * 1024];
    prg[0x0000..0x0003].copy_from_slice(&[0x4C, 0xF5, 0xC5]);
    prg[0x05F5..0x0600].copy_from_slice(&[0xA2, 0x00, 0x86, 0x00, 0x86, 0x10, 0x86, 0x11, 0x20, 0x2D, 0xC7]);
    prg[0x072D..0x0732].copy_from_slice(&[0xEA, 0x38, 0xB0, 0x04, 0xA2]);
    rom.extend_from_slice(&prg);
    rom.extend_from_slice(&[0u8; 8 * 1024]);
    let cart = Cartridge::create_from_rom(&rom).unwrap();
    let mut nes = Nes::new(cart, NesController::new(0), Mixer::new()).unwrap();
    nes.set_cpu_debug(true);
    nes.debug_reset();
    nes.tick_n(3 * 31);
    let lines: Vec<(u16, u8, u8, u8, u32, u32, u32)> = nes
        .take_trace()
        .iter()
        .map(|t| (t.cpu.pc, t.cpu.opcode, t.cpu.p, t.cpu.s, t.scanline, t.dot, t.cpu.cycles_frame))
        .collect();
    assert_eq!(
        lines,
        vec![
            (0xC000, 0x4C, 0x24, 0xFD, 0, 21, 7),
            (0xC5F5, 0xA2, 0x24, 0xFD, 0, 30, 10),
            (0xC5F7, 0x86, 0x26, 0xFD, 0, 36, 12),
            (0xC5F9, 0x86, 0x26, 0xFD, 0, 45, 15),
            (0xC5FB, 0x86, 0x26, 0xFD, 0, 54, 18),
            (0xC5FD, 0x20, 0x26, 0xFD, 0, 63, 21),
            (0xC72D, 0xEA, 0x26, 0xFB, 0, 81, 27),
            (0xC72E, 0x38, 0x26, 0xFB, 0, 87, 29),
            (0xC72F, 0xB0, 0x27, 0xFB, 0, 93, 31),
        ]
    );
    assert_eq!(nes.cpu.reg.PC, 0xC735);
}
