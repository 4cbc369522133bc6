use nes_core::apu::mixer::Mixer;
use nes_core::bus::Bus;
use nes_core::cartridge::Cartridge;
use nes_core::controller::basic::NesController;
use nes_core::cpu::alu::{do_adc, do_asl, do_bit_test, do_compare, do_lsr, do_rol, do_ror, StatusReg};
use nes_core::cpu::opcode::{opcode_to_enum, Instruction, InstructionInfo, OpMode};
use nes_core::cpu::{operand_lenght, Reg, CPU};
use nes_core::mapper::load_rom;
use nes_core::memory::{MemRead, MemWrite};

const N: u8 = 0x80;
const V: u8 = 0x40;
const Z: u8 = 0x02;
const C: u8 = 0x01;

/// A CPU after reset and a bus with `code` at 0x8000. The vectors are:
/// NMI 0x9000, reset 0x8000, IRQ 0xA000. The rest of the ROM is NOPs.
fn machine(code: &[u8]) -> (CPU, Bus) {
    machine_at(&[(0x8000, code)])
}

fn machine_at(blocks: &[(usize, &[u8])]) -> (CPU, Bus) {
    let mut rom = vec![0x4E, 0x45, 0x53, 0x1A, 2, 0, 0, 0];
    rom.extend_from_slice(&[0u8; 8]);
    let mut prg = vec![0xEAu8; 32 * 1024];
    for (at, code) in blocks {
        for (i, b) in code.iter().enumerate() {
            prg[at - 0x8000 + i] = *b;
        }
    }
    prg[0x7FFA] = 0x00;
    prg[0x7FFB] = 0x90;
    prg[0x7FFC] = 0x00;
    prg[0x7FFD] = 0x80;
    prg[0x7FFE] = 0x00;
    prg[0x7FFF] = 0xA0;
    rom.extend_from_slice(&prg);
    let cart = Cartridge::create_from_rom(&rom).unwrap();
    let mut bus = Bus::new(NesController::new(0), Mixer::new());
    bus.load_mapper(load_rom(&cart).unwrap());
    let mut cpu = CPU::new();
    cpu.reset(&mut bus);
    (cpu, bus)
}

fn run(cpu: &mut CPU, bus: &mut Bus, n: usize) -> u32 {
    let mut cycles = 0;
    for _ in 0..n {
        cpu.next_instr(bus);
        cycles += cpu.cycles_instr;
    }
    cycles
}

#[test]
fn reset_state() {
    let (cpu, _bus) = machine(&[]);
    assert_eq!(cpu.reg.P.value, 0x24);
    assert_eq!(cpu.reg.S, 0xFD);
    assert_eq!(cpu.reg.PC, 0x8000);
    assert_eq!(cpu.reg.A, 0);
    assert_eq!(cpu.get_cycles_frame(), 0);
    let mut bus = _bus;
    assert_eq!((bus.read(0x00FD), bus.read(0x00FE), bus.read(0x00FF)), (0x00, 0xFF, 0xFF));
    let r = Reg::new();
    assert_eq!(r.S, 0);
    assert_eq!(r.P.value, 0x24);
}

#[test]
fn debug_reset_starts_at_the_test_entry() {
    let (mut cpu, mut bus) = machine(&[]);
    cpu.debug_reset(&mut bus);
    assert_eq!(cpu.reg.PC, 0xC000);
    assert_eq!(cpu.cycles_instr, 7);
    assert_eq!(cpu.reg.S, 0xFD);
    assert_eq!(cpu.reg.P.value, 0x24);
    // The first instruction runs in the seventh cycle.
    for _ in 0..6 {
        assert!(!cpu.tick(&mut bus));
    }
    assert!(cpu.tick(&mut bus));
    assert_eq!(cpu.get_cycles_frame(), 7);
    assert_eq!(cpu.reg.PC, 0xC001);
}

#[test]
fn decode_table_samples() {
    let i = opcode_to_enum(0xA9);
    assert_eq!((i.instr, i.mode, i.cycles, i.cycle_inc_pbc), (Instruction::LDA, OpMode::IMM, 2, false));
    let i = opcode_to_enum(0xBD);
    assert_eq!((i.instr, i.mode, i.cycles, i.cycle_inc_pbc), (Instruction::LDA, OpMode::ABX, 4, true));
    let i = opcode_to_enum(0x9D);
    assert_eq!((i.instr, i.mode, i.cycles, i.cycle_inc_pbc), (Instruction::STA, OpMode::ABX, 5, false));
    let i = opcode_to_enum(0x6C);
    assert_eq!((i.instr, i.mode, i.cycles), (Instruction::JMP, OpMode::IND, 5));
    let i = opcode_to_enum(0x00);
    assert_eq!((i.instr, i.mode, i.cycles), (Instruction::BRK, OpMode::IMP, 7));
    let i = opcode_to_enum(0xD0);
    assert_eq!((i.instr, i.mode, i.cycles, i.cycle_inc_pbc), (Instruction::BNE, OpMode::REL, 2, true));
    let i = opcode_to_enum(0xC3);
    assert_eq!((i.instr, i.mode, i.cycles), (Instruction::DCP, OpMode::IZX, 8));
    let i = opcode_to_enum(0xEB);
    assert_eq!((i.instr, i.mode, i.cycles), (Instruction::SBC, OpMode::IMM, 2));
    let i = opcode_to_enum(0xB3);
    assert_eq!((i.instr, i.mode, i.cycles, i.cycle_inc_pbc), (Instruction::LAX, OpMode::IZY, 5, true));
    assert_eq!(opcode_to_enum(0x42).opcode, 0x42);
    let nop = InstructionInfo::new();
    assert_eq!((nop.opcode, nop.instr, nop.mode, nop.cycles), (0xEA, Instruction::NOP, OpMode::IMP, 2));
}

#[test]
fn every_opcode_decodes() {
    for op in 0..=255u8 {
        let i = opcode_to_enum(op);
        assert_eq!(i.opcode, op);
        assert!(i.cycles >= 2 && i.cycles <= 8);
        assert!(operand_lenght(&i) <= 2);
    }
}

#[test]
fn undefined_opcodes_are_nops() {
    for op in [0x02u8, 0x12, 0x22, 0x32, 0x42, 0x52, 0x62, 0x72, 0x92, 0xB2, 0xD2, 0xF2] {
        let i = opcode_to_enum(op);
        assert_eq!((i.instr, i.mode, i.cycles), (Instruction::NOP, OpMode::IMM, 2));
    }
    let i = opcode_to_enum(0x9C);
    assert_eq!((i.instr, i.mode, i.cycles), (Instruction::NOP, OpMode::ABX, 5));
    let i = opcode_to_enum(0xCB);
    assert_eq!((i.instr, i.mode, i.cycles), (Instruction::NOP, OpMode::IMM, 2));
    // An unknown opcode takes one operand byte and changes nothing else.
    let (mut cpu, mut bus) = machine(&[0x02, 0xFF, 0xA9, 0x07]);
    let before = cpu.reg;
    cpu.next_instr(&mut bus);
    assert_eq!(cpu.reg.PC, 0x8002);
    assert_eq!((cpu.reg.A, cpu.reg.X, cpu.reg.Y, cpu.reg.S, cpu.reg.P.value), (before.A, before.X, before.Y, before.S, before.P.value));
    cpu.next_instr(&mut bus);
    assert_eq!(cpu.reg.A, 7);
}

#[test]
fn operand_lengths() {
    assert_eq!(operand_lenght(&opcode_to_enum(0xEA)), 0);
    assert_eq!(operand_lenght(&opcode_to_enum(0x0A)), 0);
    assert_eq!(operand_lenght(&opcode_to_enum(0xA9)), 1);
    assert_eq!(operand_lenght(&opcode_to_enum(0xA5)), 1);
    assert_eq!(operand_lenght(&opcode_to_enum(0xB1)), 1);
    assert_eq!(operand_lenght(&opcode_to_enum(0xD0)), 1);
    assert_eq!(operand_lenght(&opcode_to_enum(0xAD)), 2);
    assert_eq!(operand_lenght(&opcode_to_enum(0x6C)), 2);
}

#[test]
fn status_register_flags() {
    let mut p = StatusReg::new();
    assert_eq!(p.value, 0x24);
    assert!(p.get_I());
    assert!(!p.get_C() && !p.get_Z() && !p.get_N() && !p.get_V() && !p.get_D());
    p.set_C(true);
    p.set_N(true);
    p.set_V(true);
    p.set_Z(true);
    p.set_D(true);
    p.set_I(false);
    assert_eq!(p.value, 0xEB);
    p.set_N(false);
    p.set_Z(false);
    assert_eq!(p.value, 0x69);
    assert_eq!(p.set_B(3), 0x79);
    assert_eq!(p.set_B(2), 0x69);
    assert_eq!(p.set_B(1), 0x59);
    assert_eq!(p.set_B(0), 0x49);
    assert_eq!(p.value, 0x69);
    p.set_value(0xFF);
    assert_eq!(p.value, 0xEF);
    p.set_value(0x00);
    assert_eq!(p.value, 0x20);
    p.set_ZN(0);
    assert_eq!(p.value, 0x22);
    p.set_ZN(0x80);
    assert_eq!(p.value, 0xA0);
    p.reset();
    assert_eq!(p.value, 0x24);
}

#[test]
fn adc_exact_values() {
    let p = StatusReg { value: 0x24 };
    let (r, q) = do_adc(0x50, 0x50, p);
    assert_eq!((r, q.value), (0xA0, 0x24 | N | V));
    let (r, q) = do_adc(0xD0, 0x90, p);
    assert_eq!((r, q.value), (0x60, 0x24 | V | C));
    let (r, q) = do_adc(0x50, 0x10, p);
    assert_eq!((r, q.value), (0x60, 0x24));
    let (r, q) = do_adc(0xFF, 0x01, p);
    assert_eq!((r, q.value), (0x00, 0x24 | Z | C));
    let carry = StatusReg { value: 0x24 | C };
    let (r, q) = do_adc(0xFF, 0xFF, carry);
    assert_eq!((r, q.value), (0xFF, 0x24 | N | C));
    let (r, q) = do_adc(0x7F, 0x00, carry);
    assert_eq!((r, q.value), (0x80, 0x24 | N | V));
    // The decimal flag changes nothing.
    let decimal = StatusReg { value: 0x2C };
    let (r, q) = do_adc(0x09, 0x01, decimal);
    assert_eq!((r, q.value), (0x0A, 0x2C));
}

#[test]
fn adc_agrees_with_integer_arithmetic() {
    for a in 0..=255u16 {
        for m in (0..=255u16).step_by(5) {
            for c in 0..=1u16 {
                let p = StatusReg { value: 0x24 | c as u8 };
                let (r, q) = do_adc(a as u8, m as u8, p);
                let sum = a + m + c;
                assert_eq!(r as u16, sum % 256);
                assert_eq!(q.get_C(), sum > 255);
                assert_eq!(q.get_Z(), r == 0);
                assert_eq!(q.get_N(), r >= 0x80);
                assert_eq!(q.get_V(), ((a as u8) ^ r) & ((m as u8) ^ r) & 0x80 != 0);
                let signed = (a as u8 as i8) as i16 + (m as u8 as i8) as i16 + c as i16;
                assert_eq!(q.get_V(), signed < -128 || signed > 127);
            }
        }
    }
}

#[test]
fn compare_exact_values() {
    let p = StatusReg { value: 0x24 };
    assert_eq!(do_compare(0x40, 0x40, p).value, 0x24 | Z | C);
    assert_eq!(do_compare(0x41, 0x40, p).value, 0x24 | C);
    assert_eq!(do_compare(0x40, 0x41, p).value, 0x24 | N);
    assert_eq!(do_compare(0xFF, 0x01, p).value, 0x24 | N | C);
    assert_eq!(do_compare(0x00, 0xFF, p).value, 0x24);
    for reg in 0..=255u8 {
        for m in 0..=reg {
            let q = do_compare(reg, m, p);
            assert!(q.get_C());
            assert_eq!(q.get_N(), (reg - m) & 0x80 != 0);
        }
    }
}

fn pair(x: (u8, StatusReg)) -> (u8, u8) {
    (x.0, x.1.value)
}

#[test]
fn shifts_and_rotates_exact_values() {
    let p = StatusReg { value: 0x24 };
    let c = StatusReg { value: 0x25 };
    assert_eq!(pair(do_asl(0x81, p)), (0x02, 0x25));
    assert_eq!(pair(do_asl(0x40, c)), (0x80, 0xA4));
    assert_eq!(pair(do_lsr(0x01, p)), (0x00, 0x27));
    assert_eq!(pair(do_lsr(0x80, c)), (0x40, 0x24));
    assert_eq!(pair(do_rol(0x80, c)), (0x01, 0x25));
    assert_eq!(pair(do_rol(0x80, p)), (0x00, 0x27));
    assert_eq!(pair(do_ror(0x01, c)), (0x80, 0xA5));
    assert_eq!(pair(do_ror(0x02, p)), (0x01, 0x24));
    assert_eq!(do_bit_test(0x0F, 0xC0, p).value, 0x24 | N | V | Z);
    assert_eq!(do_bit_test(0xFF, 0x01, StatusReg { value: 0xE6 }).value, 0x24);
}

#[test]
fn loads_set_zero_and_negative() {
    let (mut cpu, mut bus) = machine(&[0xA9, 0x00, 0xA2, 0x80, 0xA0, 0x7F]);
    cpu.next_instr(&mut bus);
    assert_eq!((cpu.reg.A, cpu.reg.P.value), (0x00, 0x26));
    cpu.next_instr(&mut bus);
    assert_eq!((cpu.reg.X, cpu.reg.P.value), (0x80, 0xA4));
    cpu.next_instr(&mut bus);
    assert_eq!((cpu.reg.Y, cpu.reg.P.value), (0x7F, 0x24));
    assert_eq!(cpu.reg.PC, 0x8006);
}

#[test]
fn sbc_is_adc_of_the_complement() {
    // SEC; LDA #$50; SBC #$F0  -> 0x60, borrow (carry clear), no overflow.
    let (mut cpu, mut bus) = machine(&[0x38, 0xA9, 0x50, 0xE9, 0xF0, 0xE9, 0x70, 0xEB, 0x01]);
    run(&mut cpu, &mut bus, 3);
    assert_eq!((cpu.reg.A, cpu.reg.P.value), (0x60, 0x24));
    // SBC #$70 with borrow: 0x60 - 0x70 - 1 = 0xEF.
    cpu.next_instr(&mut bus);
    assert_eq!((cpu.reg.A, cpu.reg.P.value), (0xEF, 0x24 | N));
    // The unofficial SBC: 0xEF - 1 - 1 = 0xED, no borrow.
    cpu.next_instr(&mut bus);
    assert_eq!((cpu.reg.A, cpu.reg.P.value), (0xED, 0x24 | N | C));
}

#[test]
fn branch_cycles() {
    // Not taken: BNE with Z set.
    let (mut cpu, mut bus) = machine(&[0xA9, 0x00, 0xD0, 0x10]);
    run(&mut cpu, &mut bus, 2);
    assert_eq!(cpu.cycles_instr, 2);
    assert_eq!(cpu.reg.PC, 0x8004);
    assert!(!cpu.as_jump);
    // Taken within the page: BEQ +0x10.
    let (mut cpu, mut bus) = machine(&[0xA9, 0x00, 0xF0, 0x10]);
    run(&mut cpu, &mut bus, 2);
    assert_eq!(cpu.cycles_instr, 3);
    assert_eq!(cpu.reg.PC, 0x8014);
    assert!(cpu.as_jump);
    // Taken backwards into the previous page: from 0x8102, -4 is 0x80FE.
    let (mut cpu, mut bus) = machine_at(&[(0x8000, &[0x4C, 0x00, 0x81]), (0x8100, &[0x10, 0xFC])]);
    run(&mut cpu, &mut bus, 2);
    assert_eq!(cpu.reg.PC, 0x80FE);
    assert_eq!(cpu.cycles_instr, 4);
    assert_eq!(cpu.addr_rel, -4);
    // Taken forwards into the next page: from 0x80F2, +0x7F is 0x8171.
    let (mut cpu, mut bus) = machine_at(&[(0x8000, &[0x4C, 0xF0, 0x80]), (0x80F0, &[0x10, 0x7F])]);
    run(&mut cpu, &mut bus, 2);
    assert_eq!(cpu.reg.PC, 0x8171);
    assert_eq!(cpu.cycles_instr, 4);
}

#[test]
fn every_branch_follows_its_flag() {
    // (opcode, flag mask, taken when the flag is set)
    let branches = [(0x10u8, N, false), (0x30, N, true), (0x50, V, false), (0x70, V, true), (0x90, C, false), (0xB0, C, true), (0xD0, Z, false), (0xF0, Z, true)];
    for (op, mask, when_set) in branches {
        for set in [false, true] {
            let (mut cpu, mut bus) = machine(&[op, 0x04]);
            cpu.reg.P.value = if set { 0x24 | mask } else { 0x24 };
            cpu.next_instr(&mut bus);
            let taken = set == when_set;
            assert_eq!(cpu.reg.PC, if taken { 0x8006 } else { 0x8002 });
            assert_eq!(cpu.cycles_instr, if taken { 3 } else { 2 });
        }
    }
}

#[test]
fn page_cross_penalties() {
    // LDX #$01; LDA $80FF,X crosses; LDA $8000,X does not; STA $00FF,X never pays.
    let (mut cpu, mut bus) = machine(&[0xA2, 0x01, 0xBD, 0xFF, 0x80, 0xBD, 0x00, 0x80, 0x9D, 0xFF, 0x00]);
    cpu.next_instr(&mut bus);
    cpu.next_instr(&mut bus);
    assert_eq!(cpu.cycles_instr, 5);
    assert_eq!(cpu.addr_abs, 0x8100);
    cpu.next_instr(&mut bus);
    assert_eq!(cpu.cycles_instr, 4);
    assert_eq!(cpu.reg.A, 0x01);
    cpu.next_instr(&mut bus);
    assert_eq!(cpu.cycles_instr, 5);
    assert_eq!(bus.read(0x0100), 0x01);
    // LDY #$01; LDA ($10),Y with the pointer at 0x02FF crosses.
    let (mut cpu, mut bus) = machine(&[0xA0, 0x01, 0xB1, 0x10, 0x91, 0x10]);
    bus.write(0x0010, 0xFF);
    bus.write(0x0011, 0x02);
    bus.write(0x0300, 0x3C);
    cpu.next_instr(&mut bus);
    cpu.next_instr(&mut bus);
    assert_eq!(cpu.reg.A, 0x3C);
    assert_eq!(cpu.cycles_instr, 6);
    cpu.next_instr(&mut bus);
    assert_eq!(cpu.cycles_instr, 6);
}

#[test]
fn zero_page_indexing_wraps() {
    // LDX #$FF; LDA $80,X reads 0x007F; LDA ($01,X) reads the pointer at 0x0000.
    let (mut cpu, mut bus) = machine(&[0xA2, 0xFF, 0xB5, 0x80, 0xA1, 0x01, 0xA0, 0x02, 0xB6, 0xFF]);
    bus.write(0x007F, 0x11);
    bus.write(0x0000, 0x34);
    bus.write(0x0001, 0x02);
    bus.write(0x0234, 0x22);
    run(&mut cpu, &mut bus, 2);
    assert_eq!((cpu.reg.A, cpu.addr_abs), (0x11, 0x007F));
    cpu.next_instr(&mut bus);
    assert_eq!((cpu.reg.A, cpu.addr_abs), (0x22, 0x0234));
    // LDY #$02; LDX $FF,Y reads 0x0001.
    run(&mut cpu, &mut bus, 2);
    assert_eq!((cpu.reg.X, cpu.addr_abs), (0x02, 0x0001));
}

#[test]
fn indirect_y_pointer_wraps_in_the_zero_page() {
    let (mut cpu, mut bus) = machine(&[0xB1, 0xFF]);
    bus.write(0x00FF, 0x00);
    bus.write(0x0000, 0x03);
    bus.write(0x0300, 0x99);
    cpu.next_instr(&mut bus);
    assert_eq!(cpu.reg.A, 0x99);
}

#[test]
fn jmp_indirect_page_wrap() {
    // The pointer at 0x02FF takes its high byte from 0x0200, not 0x0300.
    let (mut cpu, mut bus) = machine(&[0x6C, 0xFF, 0x02]);
    bus.write(0x02FF, 0x34);
    bus.write(0x0200, 0x12);
    bus.write(0x0300, 0x56);
    cpu.next_instr(&mut bus);
    assert_eq!(cpu.reg.PC, 0x1234);
    assert_eq!(cpu.cycles_instr, 5);
    // Away from the page end the pointer is read as it stands.
    let (mut cpu, mut bus) = machine(&[0x6C, 0x10, 0x02]);
    bus.write(0x0210, 0x78);
    bus.write(0x0211, 0x56);
    cpu.next_instr(&mut bus);
    assert_eq!(cpu.reg.PC, 0x5678);
}

#[test]
fn jsr_and_rts() {
    let (mut cpu, mut bus) = machine_at(&[(0x8000, &[0x20, 0x00, 0x90, 0xA9, 0x01]), (0x9000, &[0x60])]);
    cpu.next_instr(&mut bus);
    assert_eq!(cpu.reg.PC, 0x9000);
    assert_eq!(cpu.reg.S, 0xFB);
    assert_eq!(bus.read(0x01FD), 0x80);
    assert_eq!(bus.read(0x01FC), 0x02);
    assert_eq!(cpu.cycles_instr, 6);
    cpu.next_instr(&mut bus);
    assert_eq!(cpu.reg.PC, 0x8003);
    assert_eq!(cpu.reg.S, 0xFD);
    assert_eq!(cpu.cycles_instr, 6);
}

#[test]
fn rts_carries_into_the_high_byte() {
    // LDA #$10; PHA; LDA #$FF; PHA; RTS returns to 0x10FF + 1.
    let (mut cpu, mut bus) = machine(&[0xA9, 0x10, 0x48, 0xA9, 0xFF, 0x48, 0x60]);
    run(&mut cpu, &mut bus, 5);
    assert_eq!(cpu.reg.PC, 0x1100);
}

#[test]
fn stack_wraps_in_its_page() {
    // LDX #$00; TXS; LDA #$AB; PHA; PHA; PLA; PLA
    let (mut cpu, mut bus) = machine(&[0xA2, 0x00, 0x9A, 0xA9, 0xAB, 0x48, 0x48, 0xA9, 0x00, 0x68, 0x68]);
    run(&mut cpu, &mut bus, 4);
    assert_eq!(cpu.reg.S, 0xFF);
    assert_eq!(bus.read(0x0100), 0xAB);
    cpu.next_instr(&mut bus);
    assert_eq!(cpu.reg.S, 0xFE);
    assert_eq!(bus.read(0x01FF), 0xAB);
    run(&mut cpu, &mut bus, 2);
    assert_eq!((cpu.reg.A, cpu.reg.S), (0xAB, 0xFF));
    cpu.next_instr(&mut bus);
    assert_eq!((cpu.reg.A, cpu.reg.S), (0xAB, 0x00));
}

#[test]
fn php_and_plp_handle_the_b_bits() {
    // PHP pushes bits 4 and 5 set; PLP ignores them.
    let (mut cpu, mut bus) = machine(&[0x08, 0xA9, 0xFF, 0x48, 0x28, 0x28]);
    cpu.next_instr(&mut bus);
    assert_eq!(bus.read(0x01FD), 0x34);
    assert_eq!(cpu.cycles_instr, 3);
    run(&mut cpu, &mut bus, 2);
    cpu.next_instr(&mut bus);
    assert_eq!(cpu.reg.P.value, 0xEF);
    assert_eq!(cpu.cycles_instr, 4);
    cpu.next_instr(&mut bus);
    assert_eq!(cpu.reg.P.value, 0x24);
}

#[test]
fn read_modify_write_instructions() {
    // INC $10; DEC $11; ASL $12; LSR $12; ROL A; ROR A
    let (mut cpu, mut bus) = machine(&[0xE6, 0x10, 0xC6, 0x11, 0x06, 0x12, 0x46, 0x12, 0x38, 0xA9, 0x40, 0x2A, 0x6A]);
    bus.write(0x10, 0xFF);
    bus.write(0x11, 0x00);
    bus.write(0x12, 0xC1);
    cpu.next_instr(&mut bus);
    assert_eq!((bus.read(0x10), cpu.reg.P.value, cpu.cycles_instr), (0x00, 0x26, 5));
    cpu.next_instr(&mut bus);
    assert_eq!((bus.read(0x11), cpu.reg.P.value), (0xFF, 0xA4));
    cpu.next_instr(&mut bus);
    assert_eq!((bus.read(0x12), cpu.reg.P.value), (0x82, 0xA5));
    cpu.next_instr(&mut bus);
    assert_eq!((bus.read(0x12), cpu.reg.P.value), (0x41, 0x24));
    run(&mut cpu, &mut bus, 2);
    cpu.next_instr(&mut bus);
    assert_eq!((cpu.reg.A, cpu.reg.P.value, cpu.cycles_instr), (0x81, 0xA4, 2));
    cpu.next_instr(&mut bus);
    assert_eq!((cpu.reg.A, cpu.reg.P.value), (0x40, 0x25));
}

#[test]
fn transfers_and_counters() {
    // LDA #$80; TAX; TAY; INX; DEY; TXA; TYA; TSX; LDX #$00; DEX; INY
    let (mut cpu, mut bus) = machine(&[0xA9, 0x80, 0xAA, 0xA8, 0xE8, 0x88, 0x8A, 0x98, 0xBA, 0xA2, 0x00, 0xCA, 0xC8]);
    run(&mut cpu, &mut bus, 5);
    assert_eq!((cpu.reg.X, cpu.reg.Y), (0x81, 0x7F));
    assert_eq!(cpu.reg.P.value, 0x24);
    cpu.next_instr(&mut bus);
    assert_eq!((cpu.reg.A, cpu.reg.P.value), (0x81, 0xA4));
    cpu.next_instr(&mut bus);
    assert_eq!((cpu.reg.A, cpu.reg.P.value), (0x7F, 0x24));
    cpu.next_instr(&mut bus);
    assert_eq!((cpu.reg.X, cpu.reg.P.value), (0xFD, 0xA4));
    run(&mut cpu, &mut bus, 2);
    assert_eq!((cpu.reg.X, cpu.reg.P.value), (0xFF, 0xA4));
    cpu.next_instr(&mut bus);
    assert_eq!(cpu.reg.Y, 0x80);
}

#[test]
fn flag_instructions() {
    // SEC; SED; CLI; CLC; CLD; SEI; then BIT sets V and CLV clears it.
    let (mut cpu, mut bus) = machine(&[0x38, 0xF8, 0x58, 0x18, 0xD8, 0x78, 0x24, 0x10, 0xB8]);
    bus.write(0x10, 0x40);
    run(&mut cpu, &mut bus, 3);
    assert_eq!(cpu.reg.P.value, 0x29);
    run(&mut cpu, &mut bus, 3);
    assert_eq!(cpu.reg.P.value, 0x24);
    cpu.next_instr(&mut bus);
    assert_eq!(cpu.reg.P.value, 0x24 | V | Z);
    cpu.next_instr(&mut bus);
    assert_eq!(cpu.reg.P.value, 0x24 | Z);
}

#[test]
fn unofficial_load_and_store() {
    // LAX $10; SAX $11 with A = X = 0xF0 & ...
    let (mut cpu, mut bus) = machine(&[0xA7, 0x10, 0xA9, 0x3C, 0x87, 0x11]);
    bus.write(0x10, 0xF0);
    cpu.next_instr(&mut bus);
    assert_eq!((cpu.reg.A, cpu.reg.X, cpu.reg.P.value, cpu.cycles_instr), (0xF0, 0xF0, 0xA4, 3));
    run(&mut cpu, &mut bus, 2);
    assert_eq!(bus.read(0x11), 0x30);
    assert_eq!(cpu.reg.P.value, 0x24);
}

#[test]
fn unofficial_read_modify_write_pairs() {
    // SLO $10: memory shifts left, A |= memory.
    let (mut cpu, mut bus) = machine(&[0xA9, 0x01, 0x07, 0x10, 0x27, 0x11, 0x47, 0x12, 0x67, 0x13, 0xC7, 0x14, 0xE7, 0x15]);
    bus.write(0x10, 0x81);
    bus.write(0x11, 0x40);
    bus.write(0x12, 0x03);
    bus.write(0x13, 0x02);
    bus.write(0x14, 0x11);
    bus.write(0x15, 0x0F);
    run(&mut cpu, &mut bus, 2);
    assert_eq!((bus.read(0x10), cpu.reg.A, cpu.reg.P.value, cpu.cycles_instr), (0x02, 0x03, 0x25, 5));
    // RLA $11: memory rotates left through the carry, A &= memory.
    cpu.next_instr(&mut bus);
    assert_eq!((bus.read(0x11), cpu.reg.A, cpu.reg.P.value), (0x81, 0x01, 0x24));
    // SRE $12: memory shifts right, A ^= memory.
    cpu.next_instr(&mut bus);
    assert_eq!((bus.read(0x12), cpu.reg.A, cpu.reg.P.value), (0x01, 0x00, 0x27));
    // RRA $13: memory rotates right through the carry, A += memory + carry.
    cpu.next_instr(&mut bus);
    assert_eq!((bus.read(0x13), cpu.reg.A, cpu.reg.P.value), (0x81, 0x81, 0xA4));
    // DCP $14: memory decrements, then compares with A.
    cpu.next_instr(&mut bus);
    assert_eq!((bus.read(0x14), cpu.reg.A, cpu.reg.P.value), (0x10, 0x81, 0x25));
    // ISC $15: memory increments, then A -= memory.
    cpu.next_instr(&mut bus);
    assert_eq!((bus.read(0x15), cpu.reg.A, cpu.reg.P.value), (0x10, 0x71, 0x65));
}

#[test]
fn unofficial_immediates() {
    // LDA #$FF; ANC #$80; LDA #$FF; ALR #$03; SEC; LDA #$FF; ARR #$02
    let (mut cpu, mut bus) = machine(&[0xA9, 0xFF, 0x0B, 0x80, 0xA9, 0xFF, 0x4B, 0x03, 0x38, 0xA9, 0xFF, 0x6B, 0x02]);
    run(&mut cpu, &mut bus, 2);
    assert_eq!((cpu.reg.A, cpu.reg.P.value), (0x80, 0xA5));
    run(&mut cpu, &mut bus, 2);
    assert_eq!((cpu.reg.A, cpu.reg.P.value), (0x01, 0x25));
    run(&mut cpu, &mut bus, 3);
    assert_eq!((cpu.reg.A, cpu.reg.P.value), (0x81, 0xA4));
}

#[test]
fn multi_byte_nops_skip_their_operands() {
    // NOP $10; NOP $10,X; NOP $1234; NOP $12FF,X (crossing); NOP #$00; NOP
    let (mut cpu, mut bus) = machine(&[0xA2, 0x01, 0x04, 0x10, 0x14, 0x10, 0x0C, 0x34, 0x12, 0x1C, 0xFF, 0x12, 0x80, 0x00, 0x1A]);
    cpu.next_instr(&mut bus);
    let p = cpu.reg.P.value;
    let mut cycles = Vec::new();
    let mut pcs = Vec::new();
    for _ in 0..6 {
        cpu.next_instr(&mut bus);
        cycles.push(cpu.cycles_instr);
        pcs.push(cpu.reg.PC);
    }
    assert_eq!(cycles, vec![3, 4, 4, 5, 2, 2]);
    assert_eq!(pcs, vec![0x8004, 0x8006, 0x8009, 0x800C, 0x800E, 0x800F]);
    assert_eq!(cpu.reg.P.value, p);
}

#[test]
fn brk_and_rti() {
    let (mut cpu, mut bus) = machine_at(&[(0x8000, &[0x38, 0x00, 0xFF, 0xA9, 0x01]), (0xA000, &[0x40])]);
    cpu.next_instr(&mut bus);
    cpu.next_instr(&mut bus);
    assert_eq!(cpu.reg.PC, 0xA000);
    assert_eq!(cpu.cycles_instr, 7);
    assert_eq!(cpu.reg.S, 0xFA);
    assert_eq!(bus.read(0x01FD), 0x80);
    assert_eq!(bus.read(0x01FC), 0x03);
    assert_eq!(bus.read(0x01FB), 0x35);
    assert_eq!(cpu.reg.P.value, 0x25);
    cpu.reg.P.value = 0x24;
    cpu.next_instr(&mut bus);
    assert_eq!(cpu.reg.PC, 0x8003);
    assert_eq!(cpu.reg.P.value, 0x25);
    assert_eq!(cpu.reg.S, 0xFD);
    assert_eq!(cpu.cycles_instr, 6);
}

#[test]
fn nmi_dispatch() {
    let (mut cpu, mut bus) = machine(&[0xA9, 0x01, 0xA9, 0x02]);
    bus.write(0x2000, 0x80);
    cpu.cycles_since_last_exec = 0;
    cpu.cycles_instr = 2;
    assert!(!cpu.tick(&mut bus));
    assert!(cpu.tick(&mut bus));
    assert_eq!(cpu.reg.A, 0x01);
    bus.ppu_mem.set_interupt(true);
    assert!(!cpu.tick(&mut bus));
    assert!(cpu.tick(&mut bus));
    // The request was answered in place of the second instruction.
    assert_eq!(cpu.reg.A, 0x01);
    assert_eq!(cpu.reg.PC, 0x9000);
    assert_eq!(cpu.cycles_instr, 7);
    assert!(!bus.ppu_mem.nmi_pending);
    assert_eq!(cpu.reg.S, 0xFA);
    assert_eq!(bus.read(0x01FD), 0x80);
    assert_eq!(bus.read(0x01FC), 0x02);
    assert_eq!(bus.read(0x01FB), 0x24);
    assert!(cpu.reg.P.get_I());
    // The next instruction runs seven cycles later, and no second dispatch follows.
    for _ in 0..6 {
        assert!(!cpu.tick(&mut bus));
    }
    assert!(cpu.tick(&mut bus));
    assert_eq!(cpu.reg.PC, 0x9001);
}

#[test]
fn nmi_waits_for_the_enable_bit() {
    let (mut cpu, mut bus) = machine(&[0xA9, 0x01, 0xA9, 0x02, 0xA9, 0x03]);
    bus.ppu_mem.set_interupt(true);
    cpu.cycles_instr = 1;
    assert!(cpu.tick(&mut bus));
    assert_eq!(cpu.reg.A, 0x01);
    bus.write(0x2000, 0x80);
    cpu.tick(&mut bus);
    assert!(cpu.tick(&mut bus));
    assert_eq!(cpu.reg.PC, 0x9000);
}

#[test]
fn irq_and_nmi_entry_points() {
    let (mut cpu, mut bus) = machine(&[]);
    cpu.reg.P.value = 0xE3;
    cpu.IRQ(&mut bus);
    assert_eq!(cpu.reg.PC, 0xA000);
    assert_eq!(bus.read(0x01FB), 0xE3);
    assert_eq!(cpu.reg.P.value, 0xE7);
    cpu.NMI(&mut bus);
    assert_eq!(cpu.reg.PC, 0x9000);
    assert_eq!(bus.read(0x01FA), 0xA0);
    assert_eq!(bus.read(0x01F9), 0x00);
    assert_eq!(bus.read(0x01F8), 0xE7);
    assert_eq!(cpu.reg.S, 0xF7);
}

fn dma_stall(extra_cycle_first: u32) -> u32 {
    // STA $4014 with A = 2 starts the DMA; count the cycles until the next
    // instruction runs.
    let (mut cpu, mut bus) = machine(&[0xA9, 0x02, 0x8D, 0x14, 0x40, 0xA2, 0x55]);
    for i in 0..256usize {
        bus.write(0x0200 + i, i as u8);
    }
    cpu.cycles_instr = 1;
    cpu.cycles_frame = extra_cycle_first;
    while cpu.reg.A != 2 {
        cpu.tick(&mut bus);
    }
    while !bus.get_oam_dma_state() {
        cpu.tick(&mut bus);
    }
    // The store has run; its own four cycles pass first.
    let mut cycles = 0u32;
    while cpu.reg.X != 0x55 {
        cpu.tick(&mut bus);
        cycles += 1;
    }
    for i in 0..256usize {
        assert_eq!(bus.ppu_mem.oam.data[i], i as u8);
    }
    cycles - 4
}

#[test]
fn oam_dma_stalls_the_cpu() {
    let a = dma_stall(0);
    let b = dma_stall(1);
    assert!(a == 513 || a == 514);
    assert!(b == 513 || b == 514);
    assert_ne!(a, b);
}

#[test]
fn tick_runs_an_instruction_when_the_budget_is_used_up() {
    // LDA $1234 takes four cycles, LDA #$05 two.
    let (mut cpu, mut bus) = machine(&[0xAD, 0x34, 0x12, 0xA9, 0x05, 0xEA]);
    let mut ran = Vec::new();
    for _ in 0..9 {
        ran.push(cpu.tick(&mut bus));
    }
    assert_eq!(ran, vec![false, true, false, false, false, true, false, true, false]);
    assert_eq!(cpu.get_cycles_frame(), 9);
    cpu.reset_cycles_frame();
    assert_eq!(cpu.get_cycles_frame(), 0);
}

#[test]
fn debug_trace_lines() {
    let (mut cpu, mut bus) = machine(&[0xA9, 0x42, 0x8D, 0x00, 0x02]);
    cpu.set_debug(true);
    cpu.tick(&mut bus);
    assert!(!cpu.traced);
    cpu.tick(&mut bus);
    assert!(cpu.traced);
    let t = cpu.last_trace;
    assert_eq!((t.pc, t.opcode, t.op_len, t.operand.0), (0x8000, 0xA9, 1, 0x42));
    assert_eq!((t.a, t.x, t.y, t.p, t.s, t.cycles_frame), (0, 0, 0, 0x24, 0xFD, 2));
    cpu.tick(&mut bus);
    assert!(!cpu.traced);
    cpu.tick(&mut bus);
    let t = cpu.last_trace;
    assert_eq!((t.pc, t.opcode, t.op_len, t.operand), (0x8002, 0x8D, 2, (0x00, 0x02)));
    assert_eq!(t.a, 0x42);
    assert_eq!(bus.read(0x0200), 0x42);
}

#[test]
fn a_small_program_runs_to_its_end() {
    // Sums 1..=10 into $00 and stops in a loop:
    //   LDA #$00; LDX #$0A; CLC
    // loop: STX $01; ADC $01; DEX; BNE loop
    //   STA $00
    // end: JMP end
    let code = [0xA9, 0x00, 0xA2, 0x0A, 0x18, 0x86, 0x01, 0x65, 0x01, 0xCA, 0xD0, 0xF9, 0x85, 0x00, 0x4C, 0x0E, 0x80];
    let (mut cpu, mut bus) = machine(&code);
    let mut cycles = 0;
    let mut instructions = 0;
    while cpu.reg.PC != 0x800E {
        cycles += run(&mut cpu, &mut bus, 1);
        instructions += 1;
    }
    assert_eq!(bus.read(0x0000), 55);
    assert_eq!(cpu.reg.A, 55);
    assert_eq!(cpu.reg.X, 0);
    assert_eq!(instructions, 3 + 4 * 10 + 1);
    // Setup 6, ten rounds of 3 + 3 + 2 + 3 less the last branch not taken, store 3.
    assert_eq!(cycles, 6 + 10 * 11 - 1 + 3);
    assert_eq!(cpu.reg.P.value, 0x26);
}

#[test]
fn register_snapshot() {
    let (mut cpu, mut bus) = machine(&[0xA9, 0x42]);
    let saved = cpu.save_reg_state();
    cpu.next_instr(&mut bus);
    assert_eq!(cpu.reg.A, 0x42);
    cpu.load_reg_state(&saved);
    assert_eq!((cpu.reg.A, cpu.reg.PC), (0, 0x8000));
}
