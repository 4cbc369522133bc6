//! The instructions: how each addressing mode finds the operand, and what
//! each instruction does to the registers and the bus.

use vstd::prelude::*;
use crate::bus::{Bus, BusView};
use crate::cpu::alu::{
    adc, asl, bit_test, compare, do_adc, do_asl, do_bit_test, do_compare, do_lsr, do_rol, do_ror,
    lsr, rol, ror, FLAG_C, FLAG_D, FLAG_I, FLAG_N, FLAG_V, FLAG_Z,
};
use crate::cpu::opcode::{Instruction, OpMode};
use crate::cpu::{CPU, IRQ_VECTOR, MAX_INSTR_CYCLES};
use crate::memory::{MemRead, MemWrite};

verus! {

/// Whether an addressing mode names a place in memory that the operand is
/// read from.
pub open spec fn reads_memory(mode: OpMode) -> bool {
    mode == OpMode::ZP0 || mode == OpMode::ZPX || mode == OpMode::ZPY || mode == OpMode::IZX
        || mode == OpMode::IZY || mode == OpMode::ABS || mode == OpMode::ABX || mode
        == OpMode::ABY
}

/// The target of a relative branch: the program counter plus the operand
/// taken as a signed byte.
pub open spec fn branch_target(pc: u16, operand: u8) -> u16 {
    if operand < 128 {
        pc.wrapping_add(operand as u16)
    } else {
        pc.wrapping_add(0xFF00u16 | (operand as u16))
    }
}

/// The operand of a relative branch as a signed offset.
pub open spec fn signed_offset(operand: u8) -> i8 {
    if operand < 128 {
        operand as i8
    } else {
        (operand - 256) as i8
    }
}

#[allow(non_snake_case)]
impl CPU {
    /// The fetch of the operand, once per instruction: the accumulator in
    /// accumulator mode, the byte at the effective address in the modes
    /// that name one. An immediate operand is already in place.
    pub open spec fn spec_load_operand(self, bus: BusView) -> (CPU, BusView) {
        if self.instr_op_load {
            (self, bus)
        } else if self.instr.mode == OpMode::ACC {
            (CPU { instr_op_load: true, ..self.set_op0(self.reg.A) }, bus)
        } else if reads_memory(self.instr.mode) {
            let (v, b) = bus.read(self.addr_abs as usize);
            (CPU { instr_op_load: true, ..self.set_op0(v) }, b)
        } else {
            (CPU { instr_op_load: true, ..self }, bus)
        }
    }

    /// The effective address of the fetched instruction, by its addressing
    /// mode, and the page-crossing penalty where the instruction has one.
    ///
    /// Zero-page indexing wraps within the zero page. Indirect mode reads
    /// the high byte of the target from the start of the same page when
    /// the pointer sits on the last byte of a page.
    pub open spec fn spec_addressing(self, bus: BusView) -> (CPU, BusView) {
        let c = CPU { instr_op_load: false, ..self };
        let op0 = self.operand.0;
        let op1 = self.operand.1;
        let abs: u16 = ((op1 as u16) << 8) | (op0 as u16);
        match self.instr.mode {
            OpMode::ACC => (c.set_op0(self.reg.A), bus),
            OpMode::IMP => (c, bus),
            OpMode::IMM => (c, bus),
            OpMode::ZP0 => (CPU { addr_abs: op0 as u16, ..c }, bus),
            OpMode::ZPX => (CPU { addr_abs: op0.wrapping_add(self.reg.X) as u16, ..c }, bus),
            OpMode::ZPY => (CPU { addr_abs: op0.wrapping_add(self.reg.Y) as u16, ..c }, bus),
            OpMode::IZX => {
                let ind: u8 = op0.wrapping_add(self.reg.X);
                let (lo, b1) = bus.read(ind as usize);
                let (hi, b2) = b1.read(ind.wrapping_add(1) as usize);
                (CPU { addr_abs: ((hi as u16) << 8) | (lo as u16), ..c }, b2)
            },
            OpMode::IZY => {
                let (lo, b1) = bus.read(op0 as usize);
                let (hi, b2) = b1.read(op0.wrapping_add(1) as usize);
                let addr: u16 = (((hi as u16) << 8) | (lo as u16)).wrapping_add(self.reg.Y as u16);
                let d = CPU { addr_abs: addr, ..c };
                (
                    if self.instr.cycle_inc_pbc && (addr >> 8) != hi as u16 {
                        d.add_cycles(1)
                    } else {
                        d
                    },
                    b2,
                )
            },
            OpMode::ABS => (CPU { addr_abs: abs, ..c }, bus),
            OpMode::ABX => {
                let addr: u16 = abs.wrapping_add(self.reg.X as u16);
                let d = CPU { addr_abs: addr, ..c };
                (
                    if self.instr.cycle_inc_pbc && (addr >> 8) != op1 as u16 {
                        d.add_cycles(1)
                    } else {
                        d
                    },
                    bus,
                )
            },
            OpMode::ABY => {
                let addr: u16 = abs.wrapping_add(self.reg.Y as u16);
                let d = CPU { addr_abs: addr, ..c };
                (
                    if self.instr.cycle_inc_pbc && (addr >> 8) != op1 as u16 {
                        d.add_cycles(1)
                    } else {
                        d
                    },
                    bus,
                )
            },
            OpMode::IND => {
                let (lo, b1) = bus.read(abs as usize);
                let (hi, b2) = if op0 == 0xFF {
                    b1.read(((op1 as u16) << 8) as usize)
                } else {
                    b1.read((abs + 1) as usize)
                };
                (CPU { addr_abs: ((hi as u16) << 8) | (lo as u16), ..c }, b2)
            },
            OpMode::REL => (
                CPU {
                    addr_abs: branch_target(self.reg.PC, op0),
                    addr_rel: signed_offset(op0),
                    ..c
                },
                bus,
            ),
        }
    }

    /// A taken branch: one cycle more, and another where the target lies
    /// in another page than the instruction behind the branch.
    pub open spec fn spec_branch(self) -> CPU {
        let c = if self.instr.cycle_inc_pbc && (self.reg.PC >> 8) != (self.addr_abs >> 8) {
            self.add_cycles(2)
        } else {
            self.add_cycles(1)
        };
        CPU { as_jump: true, ..c.set_pc(self.addr_abs) }
    }

    /// A branch instruction: taken where `taken` holds.
    pub open spec fn spec_branch_if(self, taken: bool) -> CPU {
        if taken {
            self.spec_branch()
        } else {
            self
        }
    }

    /// A store of `value` at the effective address.
    pub open spec fn spec_store(self, bus: BusView, value: u8) -> (CPU, BusView) {
        (self, bus.write(self.addr_abs as usize, value))
    }

    /// The write-back of a shift or rotate: to the accumulator in
    /// accumulator mode, else to the effective address. The result also
    /// stands as the operand of a second half of the instruction.
    pub open spec fn spec_write_back(self, bus: BusView, r: u8) -> (CPU, BusView) {
        if self.instr.mode == OpMode::ACC {
            (self.set_a(r).set_op0(r), bus)
        } else {
            (self.set_op0(r), bus.write(self.addr_abs as usize, r))
        }
    }

    /// The execution of the fetched instruction: the budget starts at the
    /// base count, the addressing mode is resolved, and the instruction
    /// runs. A no-operation only takes its time.
    pub open spec fn spec_exec_instr(self, bus: BusView) -> (CPU, BusView) {
        let (c0, b) = (CPU { cycles_instr: self.instr.cycles, ..self }).spec_addressing(bus);
        let c = CPU { as_jump: false, ..c0 };
        match self.instr.instr {
            Instruction::ORA => c.spec_ORA(b),
            Instruction::AND => c.spec_AND(b),
            Instruction::BIT => c.spec_BIT(b),
            Instruction::EOR => c.spec_EOR(b),
            Instruction::ADC => c.spec_ADC(b),
            Instruction::SBC => c.spec_SBC(b),
            Instruction::CMP => c.spec_CMP(b),
            Instruction::CPX => c.spec_CPX(b),
            Instruction::CPY => c.spec_CPY(b),
            Instruction::DEC => c.spec_DEC(b),
            Instruction::DEX => c.spec_DEX(b),
            Instruction::DEY => c.spec_DEY(b),
            Instruction::INC => c.spec_INC(b),
            Instruction::INX => c.spec_INX(b),
            Instruction::INY => c.spec_INY(b),
            Instruction::ASL => c.spec_ASL(b),
            Instruction::ROL => c.spec_ROL(b),
            Instruction::LSR => c.spec_LSR(b),
            Instruction::ROR => c.spec_ROR(b),
            Instruction::LDA => c.spec_LDA(b),
            Instruction::LDX => c.spec_LDX(b),
            Instruction::LDY => c.spec_LDY(b),
            Instruction::STA => c.spec_STA(b),
            Instruction::STX => c.spec_STX(b),
            Instruction::STY => c.spec_STY(b),
            Instruction::TAX => c.spec_TAX(b),
            Instruction::TXA => c.spec_TXA(b),
            Instruction::TAY => c.spec_TAY(b),
            Instruction::TYA => c.spec_TYA(b),
            Instruction::TSX => c.spec_TSX(b),
            Instruction::TXS => c.spec_TXS(b),
            Instruction::PLA => c.spec_PLA(b),
            Instruction::PHA => c.spec_PHA(b),
            Instruction::PLP => c.spec_PLP(b),
            Instruction::PHP => c.spec_PHP(b),
            Instruction::BPL => c.spec_BPL(b),
            Instruction::BMI => c.spec_BMI(b),
            Instruction::BVC => c.spec_BVC(b),
            Instruction::BVS => c.spec_BVS(b),
            Instruction::BCC => c.spec_BCC(b),
            Instruction::BCS => c.spec_BCS(b),
            Instruction::BNE => c.spec_BNE(b),
            Instruction::BEQ => c.spec_BEQ(b),
            Instruction::JMP => c.spec_JMP(b),
            Instruction::JSR => c.spec_JSR(b),
            Instruction::RTS => c.spec_RTS(b),
            Instruction::RTI => c.spec_RTI(b),
            Instruction::BRK => c.spec_BRK(b),
            Instruction::CLC => c.spec_CLC(b),
            Instruction::SEC => c.spec_SEC(b),
            Instruction::CLD => c.spec_CLD(b),
            Instruction::SED => c.spec_SED(b),
            Instruction::CLI => c.spec_CLI(b),
            Instruction::SEI => c.spec_SEI(b),
            Instruction::CLV => c.spec_CLV(b),
            Instruction::NOP => (c, b),
            Instruction::SLO => c.spec_SLO(b),
            Instruction::RLA => c.spec_RLA(b),
            Instruction::SRE => c.spec_SRE(b),
            Instruction::RRA => c.spec_RRA(b),
            Instruction::SAX => c.spec_SAX(b),
            Instruction::LAX => c.spec_LAX(b),
            Instruction::DCP => c.spec_DCP(b),
            Instruction::ISC => c.spec_ISC(b),
            Instruction::ANC => c.spec_ANC(b),
            Instruction::ALR => c.spec_ALR(b),
            Instruction::ARR => c.spec_ARR(b),
        }
    }

    /// Add with carry.
    pub open spec fn spec_ADC(self, bus: BusView) -> (CPU, BusView) {
        let (c, b) = self.spec_load_operand(bus);
        let (r, p) = adc(c.reg.A, c.operand.0, c.reg.P);
        (c.set_a(r).set_p(p), b)
    }

    /// Subtract with borrow: the addition of the complement of the operand.
    pub open spec fn spec_SBC(self, bus: BusView) -> (CPU, BusView) {
        let (c, b) = self.spec_load_operand(bus);
        c.set_op0(!c.operand.0).spec_ADC(b)
    }

    /// Bit test.
    pub open spec fn spec_BIT(self, bus: BusView) -> (CPU, BusView) {
        let (c, b) = self.spec_load_operand(bus);
        (c.set_p(bit_test(c.reg.A, c.operand.0, c.reg.P)), b)
    }

    /// And with the accumulator.
    pub open spec fn spec_AND(self, bus: BusView) -> (CPU, BusView) {
        let (c, b) = self.spec_load_operand(bus);
        let r = c.reg.A & c.operand.0;
        (c.set_a(r).set_p(c.reg.P.with_zn(r)), b)
    }

    /// Or with the accumulator.
    pub open spec fn spec_ORA(self, bus: BusView) -> (CPU, BusView) {
        let (c, b) = self.spec_load_operand(bus);
        let r = c.reg.A | c.operand.0;
        (c.set_a(r).set_p(c.reg.P.with_zn(r)), b)
    }

    /// Exclusive or with the accumulator.
    pub open spec fn spec_EOR(self, bus: BusView) -> (CPU, BusView) {
        let (c, b) = self.spec_load_operand(bus);
        let r = c.reg.A ^ c.operand.0;
        (c.set_a(r).set_p(c.reg.P.with_zn(r)), b)
    }

    /// Compare A with the operand.
    pub open spec fn spec_CMP(self, bus: BusView) -> (CPU, BusView) {
        let (c, b) = self.spec_load_operand(bus);
        (c.set_p(compare(c.reg.A, c.operand.0, c.reg.P)), b)
    }

    /// Compare X with the operand.
    pub open spec fn spec_CPX(self, bus: BusView) -> (CPU, BusView) {
        let (c, b) = self.spec_load_operand(bus);
        (c.set_p(compare(c.reg.X, c.operand.0, c.reg.P)), b)
    }

    /// Compare Y with the operand.
    pub open spec fn spec_CPY(self, bus: BusView) -> (CPU, BusView) {
        let (c, b) = self.spec_load_operand(bus);
        (c.set_p(compare(c.reg.Y, c.operand.0, c.reg.P)), b)
    }

    /// Decrement the byte at the effective address.
    pub open spec fn spec_DEC(self, bus: BusView) -> (CPU, BusView) {
        let (c, b) = self.spec_load_operand(bus);
        let r = c.operand.0.wrapping_sub(1);
        (c.set_p(c.reg.P.with_zn(r)).set_op0(r), b.write(c.addr_abs as usize, r))
    }

    /// Increment the byte at the effective address.
    pub open spec fn spec_INC(self, bus: BusView) -> (CPU, BusView) {
        let (c, b) = self.spec_load_operand(bus);
        let r = c.operand.0.wrapping_add(1);
        (c.set_p(c.reg.P.with_zn(r)).set_op0(r), b.write(c.addr_abs as usize, r))
    }

    /// Decrement X.
    pub open spec fn spec_DEX(self, bus: BusView) -> (CPU, BusView) {
        let r = self.reg.X.wrapping_sub(1);
        (self.set_x(r).set_p(self.reg.P.with_zn(r)), bus)
    }

    /// Decrement Y.
    pub open spec fn spec_DEY(self, bus: BusView) -> (CPU, BusView) {
        let r = self.reg.Y.wrapping_sub(1);
        (self.set_y(r).set_p(self.reg.P.with_zn(r)), bus)
    }

    /// Increment X.
    pub open spec fn spec_INX(self, bus: BusView) -> (CPU, BusView) {
        let r = self.reg.X.wrapping_add(1);
        (self.set_x(r).set_p(self.reg.P.with_zn(r)), bus)
    }

    /// Increment Y.
    pub open spec fn spec_INY(self, bus: BusView) -> (CPU, BusView) {
        let r = self.reg.Y.wrapping_add(1);
        (self.set_y(r).set_p(self.reg.P.with_zn(r)), bus)
    }

    /// Shift left.
    pub open spec fn spec_ASL(self, bus: BusView) -> (CPU, BusView) {
        let (c, b) = self.spec_load_operand(bus);
        let (r, p) = asl(c.operand.0, c.reg.P);
        c.set_p(p).spec_write_back(b, r)
    }

    /// Shift right.
    pub open spec fn spec_LSR(self, bus: BusView) -> (CPU, BusView) {
        let (c, b) = self.spec_load_operand(bus);
        let (r, p) = lsr(c.operand.0, c.reg.P);
        c.set_p(p).spec_write_back(b, r)
    }

    /// Rotate left.
    pub open spec fn spec_ROL(self, bus: BusView) -> (CPU, BusView) {
        let (c, b) = self.spec_load_operand(bus);
        let (r, p) = rol(c.operand.0, c.reg.P);
        c.set_p(p).spec_write_back(b, r)
    }

    /// Rotate right.
    pub open spec fn spec_ROR(self, bus: BusView) -> (CPU, BusView) {
        let (c, b) = self.spec_load_operand(bus);
        let (r, p) = ror(c.operand.0, c.reg.P);
        c.set_p(p).spec_write_back(b, r)
    }

    /// Load A.
    pub open spec fn spec_LDA(self, bus: BusView) -> (CPU, BusView) {
        let (c, b) = self.spec_load_operand(bus);
        (c.set_a(c.operand.0).set_p(c.reg.P.with_zn(c.operand.0)), b)
    }

    /// Load X.
    pub open spec fn spec_LDX(self, bus: BusView) -> (CPU, BusView) {
        let (c, b) = self.spec_load_operand(bus);
        (c.set_x(c.operand.0).set_p(c.reg.P.with_zn(c.operand.0)), b)
    }

    /// Load Y.
    pub open spec fn spec_LDY(self, bus: BusView) -> (CPU, BusView) {
        let (c, b) = self.spec_load_operand(bus);
        (c.set_y(c.operand.0).set_p(c.reg.P.with_zn(c.operand.0)), b)
    }

    /// Store A.
    pub open spec fn spec_STA(self, bus: BusView) -> (CPU, BusView) {
        self.spec_store(bus, self.reg.A)
    }

    /// Store X.
    pub open spec fn spec_STX(self, bus: BusView) -> (CPU, BusView) {
        self.spec_store(bus, self.reg.X)
    }

    /// Store Y.
    pub open spec fn spec_STY(self, bus: BusView) -> (CPU, BusView) {
        self.spec_store(bus, self.reg.Y)
    }

    /// Transfer A to X.
    pub open spec fn spec_TAX(self, bus: BusView) -> (CPU, BusView) {
        (self.set_x(self.reg.A).set_p(self.reg.P.with_zn(self.reg.A)), bus)
    }

    /// Transfer X to A.
    pub open spec fn spec_TXA(self, bus: BusView) -> (CPU, BusView) {
        (self.set_a(self.reg.X).set_p(self.reg.P.with_zn(self.reg.X)), bus)
    }

    /// Transfer A to Y.
    pub open spec fn spec_TAY(self, bus: BusView) -> (CPU, BusView) {
        (self.set_y(self.reg.A).set_p(self.reg.P.with_zn(self.reg.A)), bus)
    }

    /// Transfer Y to A.
    pub open spec fn spec_TYA(self, bus: BusView) -> (CPU, BusView) {
        (self.set_a(self.reg.Y).set_p(self.reg.P.with_zn(self.reg.Y)), bus)
    }

    /// Transfer S to X.
    pub open spec fn spec_TSX(self, bus: BusView) -> (CPU, BusView) {
        (self.set_x(self.reg.S).set_p(self.reg.P.with_zn(self.reg.S)), bus)
    }

    /// Transfer X to S; no flag changes.
    pub open spec fn spec_TXS(self, bus: BusView) -> (CPU, BusView) {
        (self.set_s(self.reg.X), bus)
    }

    /// Push the accumulator.
    pub open spec fn spec_PHA(self, bus: BusView) -> (CPU, BusView) {
        self.spec_push(bus, self.reg.A)
    }

    /// Push the status, as an instruction pushes it: bits 4 and 5 set.
    pub open spec fn spec_PHP(self, bus: BusView) -> (CPU, BusView) {
        self.spec_push(bus, self.reg.P.pushed(3))
    }

    /// Pull the accumulator.
    pub open spec fn spec_PLA(self, bus: BusView) -> (CPU, BusView) {
        let (v, c, b) = self.spec_pull(bus);
        (c.set_a(v).set_p(c.reg.P.with_zn(v)), b)
    }

    /// Pull the status; bits 4 and 5 stay.
    pub open spec fn spec_PLP(self, bus: BusView) -> (CPU, BusView) {
        let (v, c, b) = self.spec_pull(bus);
        (c.set_p(c.reg.P.pulled(v)), b)
    }

    /// Branch on plus.
    pub open spec fn spec_BPL(self, bus: BusView) -> (CPU, BusView) {
        (self.spec_branch_if(!self.reg.P.flag(FLAG_N)), bus)
    }

    /// Branch on minus.
    pub open spec fn spec_BMI(self, bus: BusView) -> (CPU, BusView) {
        (self.spec_branch_if(self.reg.P.flag(FLAG_N)), bus)
    }

    /// Branch on overflow clear.
    pub open spec fn spec_BVC(self, bus: BusView) -> (CPU, BusView) {
        (self.spec_branch_if(!self.reg.P.flag(FLAG_V)), bus)
    }

    /// Branch on overflow set.
    pub open spec fn spec_BVS(self, bus: BusView) -> (CPU, BusView) {
        (self.spec_branch_if(self.reg.P.flag(FLAG_V)), bus)
    }

    /// Branch on carry clear.
    pub open spec fn spec_BCC(self, bus: BusView) -> (CPU, BusView) {
        (self.spec_branch_if(!self.reg.P.flag(FLAG_C)), bus)
    }

    /// Branch on carry set.
    pub open spec fn spec_BCS(self, bus: BusView) -> (CPU, BusView) {
        (self.spec_branch_if(self.reg.P.flag(FLAG_C)), bus)
    }

    /// Branch on not equal.
    pub open spec fn spec_BNE(self, bus: BusView) -> (CPU, BusView) {
        (self.spec_branch_if(!self.reg.P.flag(FLAG_Z)), bus)
    }

    /// Branch on equal.
    pub open spec fn spec_BEQ(self, bus: BusView) -> (CPU, BusView) {
        (self.spec_branch_if(self.reg.P.flag(FLAG_Z)), bus)
    }

    /// Jump.
    pub open spec fn spec_JMP(self, bus: BusView) -> (CPU, BusView) {
        (CPU { as_jump: true, ..self.set_pc(self.addr_abs) }, bus)
    }

    /// Jump to a subroutine: the address of the last byte of the instruction goes on the stack, high byte first.
    pub open spec fn spec_JSR(self, bus: BusView) -> (CPU, BusView) {
        let ret = self.reg.PC.wrapping_sub(1);
        let (c1, b1) = self.spec_push(bus, (ret >> 8) as u8);
        let (c2, b2) = c1.spec_push(b1, (ret & 0xFF) as u8);
        (CPU { as_jump: true, ..c2.set_pc(self.addr_abs) }, b2)
    }

    /// Return from a subroutine: to the byte behind the pulled address.
    pub open spec fn spec_RTS(self, bus: BusView) -> (CPU, BusView) {
        let (lo, c1, b1) = self.spec_pull(bus);
        let (hi, c2, b2) = c1.spec_pull(b1);
        (CPU { as_jump: true, ..c2.set_pc((((hi as u16) << 8) | (lo as u16)).wrapping_add(1)) }, b2)
    }

    /// Return from an interrupt: pull the status, then the program counter.
    pub open spec fn spec_RTI(self, bus: BusView) -> (CPU, BusView) {
        let (p, c0, b0) = self.spec_pull(bus);
        let c = c0.set_p(c0.reg.P.pulled(p));
        let (lo, c1, b1) = c.spec_pull(b0);
        let (hi, c2, b2) = c1.spec_pull(b1);
        (CPU { as_jump: true, ..c2.set_pc(((hi as u16) << 8) | (lo as u16)) }, b2)
    }

    /// Software interrupt: the address behind the padding byte and the status (pushed as by an instruction) go on the stack, I is set, and the program goes on at the IRQ vector.
    pub open spec fn spec_BRK(self, bus: BusView) -> (CPU, BusView) {
        let ret = self.reg.PC.wrapping_add(1);
        let (c1, b1) = self.spec_push(bus, (ret >> 8) as u8);
        let (c2, b2) = c1.spec_push(b1, (ret & 0xFF) as u8);
        let (c3, b3) = c2.spec_push(b2, self.reg.P.pushed(3));
        let (pc, b4) = Self::spec_read16(b3, IRQ_VECTOR);
        (CPU { as_jump: true, ..c3.set_p(c3.reg.P.with_flag(FLAG_I, true)).set_pc(pc) }, b4)
    }

    /// Clear C.
    pub open spec fn spec_CLC(self, bus: BusView) -> (CPU, BusView) {
        (self.set_p(self.reg.P.with_flag(FLAG_C, false)), bus)
    }

    /// Set C.
    pub open spec fn spec_SEC(self, bus: BusView) -> (CPU, BusView) {
        (self.set_p(self.reg.P.with_flag(FLAG_C, true)), bus)
    }

    /// Clear D.
    pub open spec fn spec_CLD(self, bus: BusView) -> (CPU, BusView) {
        (self.set_p(self.reg.P.with_flag(FLAG_D, false)), bus)
    }

    /// Set D.
    pub open spec fn spec_SED(self, bus: BusView) -> (CPU, BusView) {
        (self.set_p(self.reg.P.with_flag(FLAG_D, true)), bus)
    }

    /// Clear I.
    pub open spec fn spec_CLI(self, bus: BusView) -> (CPU, BusView) {
        (self.set_p(self.reg.P.with_flag(FLAG_I, false)), bus)
    }

    /// Set I.
    pub open spec fn spec_SEI(self, bus: BusView) -> (CPU, BusView) {
        (self.set_p(self.reg.P.with_flag(FLAG_I, true)), bus)
    }

    /// Clear V.
    pub open spec fn spec_CLV(self, bus: BusView) -> (CPU, BusView) {
        (self.set_p(self.reg.P.with_flag(FLAG_V, false)), bus)
    }

    /// ASL, then ORA.
    pub open spec fn spec_SLO(self, bus: BusView) -> (CPU, BusView) {
        let (c, b) = self.spec_ASL(bus);
        c.spec_ORA(b)
    }

    /// ROL, then AND.
    pub open spec fn spec_RLA(self, bus: BusView) -> (CPU, BusView) {
        let (c, b) = self.spec_ROL(bus);
        c.spec_AND(b)
    }

    /// LSR, then EOR.
    pub open spec fn spec_SRE(self, bus: BusView) -> (CPU, BusView) {
        let (c, b) = self.spec_LSR(bus);
        c.spec_EOR(b)
    }

    /// ROR, then ADC.
    pub open spec fn spec_RRA(self, bus: BusView) -> (CPU, BusView) {
        let (c, b) = self.spec_ROR(bus);
        c.spec_ADC(b)
    }

    /// LDA, then LDX.
    pub open spec fn spec_LAX(self, bus: BusView) -> (CPU, BusView) {
        let (c, b) = self.spec_LDA(bus);
        c.spec_LDX(b)
    }

    /// DEC, then CMP.
    pub open spec fn spec_DCP(self, bus: BusView) -> (CPU, BusView) {
        let (c, b) = self.spec_DEC(bus);
        c.spec_CMP(b)
    }

    /// INC, then SBC.
    pub open spec fn spec_ISC(self, bus: BusView) -> (CPU, BusView) {
        let (c, b) = self.spec_INC(bus);
        c.spec_SBC(b)
    }

    /// Store A and X.
    pub open spec fn spec_SAX(self, bus: BusView) -> (CPU, BusView) {
        self.spec_store(bus, self.reg.A & self.reg.X)
    }

    /// AND, then the carry takes bit 7 of the result.
    pub open spec fn spec_ANC(self, bus: BusView) -> (CPU, BusView) {
        let (c, b) = self.spec_AND(bus);
        (c.set_p(c.reg.P.with_flag(FLAG_C, c.reg.A & 0b1000_0000 != 0)), b)
    }

    /// AND, then shift the accumulator right.
    pub open spec fn spec_ALR(self, bus: BusView) -> (CPU, BusView) {
        let (c, b) = self.spec_AND(bus);
        let (r, p) = lsr(c.reg.A, c.reg.P);
        (c.set_a(r).set_p(p).set_op0(r), b)
    }

    /// AND, then rotate the accumulator right.
    pub open spec fn spec_ARR(self, bus: BusView) -> (CPU, BusView) {
        let (c, b) = self.spec_AND(bus);
        let (r, p) = ror(c.reg.A, c.reg.P);
        (c.set_a(r).set_p(p).set_op0(r), b)
    }

    pub(crate) fn load_operand(&mut self, bus: &mut Bus)
        ensures
            (*final(self), final(bus)@) == old(self).spec_load_operand(old(bus)@),
    {
        if !self.instr_op_load {
            match self.instr.mode {
                OpMode::ACC => {
                    self.operand.0 = self.reg.A;
                },
                OpMode::ZP0
                | OpMode::ZPX
                | OpMode::ZPY
                | OpMode::IZX
                | OpMode::IZY
                | OpMode::ABS
                | OpMode::ABX
                | OpMode::ABY => {
                    self.operand.0 = bus.read(self.addr_abs as usize);
                },
                _ => {},
            }
        }
        self.instr_op_load = true;
    }

    pub(crate) fn handle_adressing_mode(&mut self, bus: &mut Bus)
        requires
            old(self).cycles_instr <= MAX_INSTR_CYCLES,
        ensures
            (*final(self), final(bus)@) == old(self).spec_addressing(old(bus)@),
            final(self).cycles_instr <= old(self).cycles_instr + 1,
            final(self).instr == old(self).instr,
    {
        self.instr_op_load = false;
        let op0: u8 = self.operand.0;
        let op1: u8 = self.operand.1;
        let abs: u16 = ((op1 as u16) << 8) | (op0 as u16);
        match self.instr.mode {
            OpMode::ACC => {
                self.operand.0 = self.reg.A;
            },
            OpMode::IMP => {},
            OpMode::IMM => {},
            OpMode::ZP0 => {
                self.addr_abs = op0 as u16;
            },
            OpMode::ZPX => {
                self.addr_abs = op0.wrapping_add(self.reg.X) as u16;
            },
            OpMode::ZPY => {
                self.addr_abs = op0.wrapping_add(self.reg.Y) as u16;
            },
            OpMode::IZX => {
                let ind: u8 = op0.wrapping_add(self.reg.X);
                let lo: u8 = bus.read(ind as usize);
                let hi: u8 = bus.read(ind.wrapping_add(1) as usize);
                self.addr_abs = ((hi as u16) << 8) | (lo as u16);
            },
            OpMode::IZY => {
                let lo: u8 = bus.read(op0 as usize);
                let hi: u8 = bus.read(op0.wrapping_add(1) as usize);
                self.addr_abs = (((hi as u16) << 8) | (lo as u16)).wrapping_add(self.reg.Y as u16);
                if self.instr.cycle_inc_pbc && (self.addr_abs >> 8) != hi as u16 {
                    self.cycles_instr += 1;
                }
            },
            OpMode::ABS => {
                self.addr_abs = abs;
            },
            OpMode::ABX => {
                self.addr_abs = abs.wrapping_add(self.reg.X as u16);
                if self.instr.cycle_inc_pbc && (self.addr_abs >> 8) != op1 as u16 {
                    self.cycles_instr += 1;
                }
            },
            OpMode::ABY => {
                self.addr_abs = abs.wrapping_add(self.reg.Y as u16);
                if self.instr.cycle_inc_pbc && (self.addr_abs >> 8) != op1 as u16 {
                    self.cycles_instr += 1;
                }
            },
            OpMode::IND => {
                let lo: u8 = bus.read(abs as usize);
                let hi: u8 = if op0 == 0xFF {
                    bus.read(((op1 as u16) << 8) as usize)
                } else {
                    bus.read(abs as usize + 1)
                };
                self.addr_abs = ((hi as u16) << 8) | (lo as u16);
            },
            OpMode::REL => {
                self.addr_abs = if op0 < 128 {
                    self.reg.PC.wrapping_add(op0 as u16)
                } else {
                    self.reg.PC.wrapping_add(0xFF00u16 | (op0 as u16))
                };
                self.addr_rel = if op0 < 128 {
                    op0 as i8
                } else {
                    (op0 as i16 - 256) as i8
                };
            },
        }
    }

    fn branch(&mut self)
        requires
            old(self).cycles_instr <= MAX_INSTR_CYCLES,
        ensures
            *final(self) == old(self).spec_branch(),
    {
        self.cycles_instr += 1;
        if self.instr.cycle_inc_pbc && (self.reg.PC >> 8) != (self.addr_abs >> 8) {
            self.cycles_instr += 1;
        }
        self.reg.PC = self.addr_abs;
        self.as_jump = true;
    }

    fn write_back(&mut self, bus: &mut Bus, r: u8)
        ensures
            (*final(self), final(bus)@) == old(self).spec_write_back(old(bus)@, r),
    {
        match self.instr.mode {
            OpMode::ACC => {
                self.reg.A = r;
            },
            _ => {
                bus.write(self.addr_abs as usize, r);
            },
        }
        self.operand.0 = r;
    }

    /// Runs the fetched instruction.
    pub(crate) fn exec_instr(&mut self, bus: &mut Bus)
        requires
            old(self).instr.cycles <= 8,
        ensures
            (*final(self), final(bus)@) == old(self).spec_exec_instr(old(bus)@),
    {
        self.cycles_instr = self.instr.cycles;
        self.handle_adressing_mode(bus);
        self.as_jump = false;
        match self.instr.instr {
            Instruction::ORA => {
                self.ORA(bus);
            },
            Instruction::AND => {
                self.AND(bus);
            },
            Instruction::BIT => {
                self.BIT(bus);
            },
            Instruction::EOR => {
                self.EOR(bus);
            },
            Instruction::ADC => {
                self.ADC(bus);
            },
            Instruction::SBC => {
                self.SBC(bus);
            },
            Instruction::CMP => {
                self.CMP(bus);
            },
            Instruction::CPX => {
                self.CPX(bus);
            },
            Instruction::CPY => {
                self.CPY(bus);
            },
            Instruction::DEC => {
                self.DEC(bus);
            },
            Instruction::DEX => {
                self.DEX(bus);
            },
            Instruction::DEY => {
                self.DEY(bus);
            },
            Instruction::INC => {
                self.INC(bus);
            },
            Instruction::INX => {
                self.INX(bus);
            },
            Instruction::INY => {
                self.INY(bus);
            },
            Instruction::ASL => {
                self.ASL(bus);
            },
            Instruction::ROL => {
                self.ROL(bus);
            },
            Instruction::LSR => {
                self.LSR(bus);
            },
            Instruction::ROR => {
                self.ROR(bus);
            },
            Instruction::LDA => {
                self.LDA(bus);
            },
            Instruction::LDX => {
                self.LDX(bus);
            },
            Instruction::LDY => {
                self.LDY(bus);
            },
            Instruction::STA => {
                self.STA(bus);
            },
            Instruction::STX => {
                self.STX(bus);
            },
            Instruction::STY => {
                self.STY(bus);
            },
            Instruction::TAX => {
                self.TAX(bus);
            },
            Instruction::TXA => {
                self.TXA(bus);
            },
            Instruction::TAY => {
                self.TAY(bus);
            },
            Instruction::TYA => {
                self.TYA(bus);
            },
            Instruction::TSX => {
                self.TSX(bus);
            },
            Instruction::TXS => {
                self.TXS(bus);
            },
            Instruction::PLA => {
                self.PLA(bus);
            },
            Instruction::PHA => {
                self.PHA(bus);
            },
            Instruction::PLP => {
                self.PLP(bus);
            },
            Instruction::PHP => {
                self.PHP(bus);
            },
            Instruction::BPL => {
                self.BPL(bus);
            },
            Instruction::BMI => {
                self.BMI(bus);
            },
            Instruction::BVC => {
                self.BVC(bus);
            },
            Instruction::BVS => {
                self.BVS(bus);
            },
            Instruction::BCC => {
                self.BCC(bus);
            },
            Instruction::BCS => {
                self.BCS(bus);
            },
            Instruction::BNE => {
                self.BNE(bus);
            },
            Instruction::BEQ => {
                self.BEQ(bus);
            },
            Instruction::JMP => {
                self.JMP(bus);
            },
            Instruction::JSR => {
                self.JSR(bus);
            },
            Instruction::RTS => {
                self.RTS(bus);
            },
            Instruction::RTI => {
                self.RTI(bus);
            },
            Instruction::BRK => {
                self.BRK(bus);
            },
            Instruction::CLC => {
                self.CLC(bus);
            },
            Instruction::SEC => {
                self.SEC(bus);
            },
            Instruction::CLD => {
                self.CLD(bus);
            },
            Instruction::SED => {
                self.SED(bus);
            },
            Instruction::CLI => {
                self.CLI(bus);
            },
            Instruction::SEI => {
                self.SEI(bus);
            },
            Instruction::CLV => {
                self.CLV(bus);
            },
            Instruction::NOP => {},
            Instruction::SLO => {
                self.SLO(bus);
            },
            Instruction::RLA => {
                self.RLA(bus);
            },
            Instruction::SRE => {
                self.SRE(bus);
            },
            Instruction::RRA => {
                self.RRA(bus);
            },
            Instruction::SAX => {
                self.SAX(bus);
            },
            Instruction::LAX => {
                self.LAX(bus);
            },
            Instruction::DCP => {
                self.DCP(bus);
            },
            Instruction::ISC => {
                self.ISC(bus);
            },
            Instruction::ANC => {
                self.ANC(bus);
            },
            Instruction::ALR => {
                self.ALR(bus);
            },
            Instruction::ARR => {
                self.ARR(bus);
            },
        }
    }

    fn ADC(&mut self, bus: &mut Bus)
        ensures
            (*final(self), final(bus)@) == old(self).spec_ADC(old(bus)@),
    {
        self.load_operand(bus);
        let (r, p) = do_adc(self.reg.A, self.operand.0, self.reg.P);
        self.reg.A = r;
        self.reg.P = p;
    }

    fn SBC(&mut self, bus: &mut Bus)
        ensures
            (*final(self), final(bus)@) == old(self).spec_SBC(old(bus)@),
    {
        self.load_operand(bus);
        self.operand.0 = !self.operand.0;
        self.ADC(bus);
    }

    fn BIT(&mut self, bus: &mut Bus)
        ensures
            (*final(self), final(bus)@) == old(self).spec_BIT(old(bus)@),
    {
        self.load_operand(bus);
        self.reg.P = do_bit_test(self.reg.A, self.operand.0, self.reg.P);
    }

    fn AND(&mut self, bus: &mut Bus)
        ensures
            (*final(self), final(bus)@) == old(self).spec_AND(old(bus)@),
    {
        self.load_operand(bus);
        self.reg.A = self.reg.A & self.operand.0;
        self.reg.P.set_ZN(self.reg.A);
    }

    fn ORA(&mut self, bus: &mut Bus)
        ensures
            (*final(self), final(bus)@) == old(self).spec_ORA(old(bus)@),
    {
        self.load_operand(bus);
        self.reg.A = self.reg.A | self.operand.0;
        self.reg.P.set_ZN(self.reg.A);
    }

    fn EOR(&mut self, bus: &mut Bus)
        ensures
            (*final(self), final(bus)@) == old(self).spec_EOR(old(bus)@),
    {
        self.load_operand(bus);
        self.reg.A = self.reg.A ^ self.operand.0;
        self.reg.P.set_ZN(self.reg.A);
    }

    fn CMP(&mut self, bus: &mut Bus)
        ensures
            (*final(self), final(bus)@) == old(self).spec_CMP(old(bus)@),
    {
        self.load_operand(bus);
        self.reg.P = do_compare(self.reg.A, self.operand.0, self.reg.P);
    }

    fn CPX(&mut self, bus: &mut Bus)
        ensures
            (*final(self), final(bus)@) == old(self).spec_CPX(old(bus)@),
    {
        self.load_operand(bus);
        self.reg.P = do_compare(self.reg.X, self.operand.0, self.reg.P);
    }

    fn CPY(&mut self, bus: &mut Bus)
        ensures
            (*final(self), final(bus)@) == old(self).spec_CPY(old(bus)@),
    {
        self.load_operand(bus);
        self.reg.P = do_compare(self.reg.Y, self.operand.0, self.reg.P);
    }

    fn DEC(&mut self, bus: &mut Bus)
        ensures
            (*final(self), final(bus)@) == old(self).spec_DEC(old(bus)@),
    {
        self.load_operand(bus);
        let r: u8 = self.operand.0.wrapping_sub(1);
        self.reg.P.set_ZN(r);
        bus.write(self.addr_abs as usize, r);
        self.operand.0 = r;
    }

    fn INC(&mut self, bus: &mut Bus)
        ensures
            (*final(self), final(bus)@) == old(self).spec_INC(old(bus)@),
    {
        self.load_operand(bus);
        let r: u8 = self.operand.0.wrapping_add(1);
        self.reg.P.set_ZN(r);
        bus.write(self.addr_abs as usize, r);
        self.operand.0 = r;
    }

    fn DEX(&mut self, bus: &mut Bus)
        ensures
            (*final(self), final(bus)@) == old(self).spec_DEX(old(bus)@),
    {
        let r: u8 = self.reg.X.wrapping_sub(1);
        self.reg.X = r;
        self.reg.P.set_ZN(r);
    }

    fn DEY(&mut self, bus: &mut Bus)
        ensures
            (*final(self), final(bus)@) == old(self).spec_DEY(old(bus)@),
    {
        let r: u8 = self.reg.Y.wrapping_sub(1);
        self.reg.Y = r;
        self.reg.P.set_ZN(r);
    }

    fn INX(&mut self, bus: &mut Bus)
        ensures
            (*final(self), final(bus)@) == old(self).spec_INX(old(bus)@),
    {
        let r: u8 = self.reg.X.wrapping_add(1);
        self.reg.X = r;
        self.reg.P.set_ZN(r);
    }

    fn INY(&mut self, bus: &mut Bus)
        ensures
            (*final(self), final(bus)@) == old(self).spec_INY(old(bus)@),
    {
        let r: u8 = self.reg.Y.wrapping_add(1);
        self.reg.Y = r;
        self.reg.P.set_ZN(r);
    }

    fn ASL(&mut self, bus: &mut Bus)
        ensures
            (*final(self), final(bus)@) == old(self).spec_ASL(old(bus)@),
    {
        self.load_operand(bus);
        let (r, p) = do_asl(self.operand.0, self.reg.P);
        self.reg.P = p;
        self.write_back(bus, r);
    }

    fn LSR(&mut self, bus: &mut Bus)
        ensures
            (*final(self), final(bus)@) == old(self).spec_LSR(old(bus)@),
    {
        self.load_operand(bus);
        let (r, p) = do_lsr(self.operand.0, self.reg.P);
        self.reg.P = p;
        self.write_back(bus, r);
    }

    fn ROL(&mut self, bus: &mut Bus)
        ensures
            (*final(self), final(bus)@) == old(self).spec_ROL(old(bus)@),
    {
        self.load_operand(bus);
        let (r, p) = do_rol(self.operand.0, self.reg.P);
        self.reg.P = p;
        self.write_back(bus, r);
    }

    fn ROR(&mut self, bus: &mut Bus)
        ensures
            (*final(self), final(bus)@) == old(self).spec_ROR(old(bus)@),
    {
        self.load_operand(bus);
        let (r, p) = do_ror(self.operand.0, self.reg.P);
        self.reg.P = p;
        self.write_back(bus, r);
    }

    fn LDA(&mut self, bus: &mut Bus)
        ensures
            (*final(self), final(bus)@) == old(self).spec_LDA(old(bus)@),
    {
        self.load_operand(bus);
        self.reg.A = self.operand.0;
        self.reg.P.set_ZN(self.reg.A);
    }

    fn LDX(&mut self, bus: &mut Bus)
        ensures
            (*final(self), final(bus)@) == old(self).spec_LDX(old(bus)@),
    {
        self.load_operand(bus);
        self.reg.X = self.operand.0;
        self.reg.P.set_ZN(self.reg.X);
    }

    fn LDY(&mut self, bus: &mut Bus)
        ensures
            (*final(self), final(bus)@) == old(self).spec_LDY(old(bus)@),
    {
        self.load_operand(bus);
        self.reg.Y = self.operand.0;
        self.reg.P.set_ZN(self.reg.Y);
    }

    fn STA(&mut self, bus: &mut Bus)
        ensures
            (*final(self), final(bus)@) == old(self).spec_STA(old(bus)@),
    {
        bus.write(self.addr_abs as usize, self.reg.A);
    }

    fn STX(&mut self, bus: &mut Bus)
        ensures
            (*final(self), final(bus)@) == old(self).spec_STX(old(bus)@),
    {
        bus.write(self.addr_abs as usize, self.reg.X);
    }

    fn STY(&mut self, bus: &mut Bus)
        ensures
            (*final(self), final(bus)@) == old(self).spec_STY(old(bus)@),
    {
        bus.write(self.addr_abs as usize, self.reg.Y);
    }

    fn TAX(&mut self, bus: &mut Bus)
        ensures
            (*final(self), final(bus)@) == old(self).spec_TAX(old(bus)@),
    {
        self.reg.X = self.reg.A;
        self.reg.P.set_ZN(self.reg.X);
    }

    fn TXA(&mut self, bus: &mut Bus)
        ensures
            (*final(self), final(bus)@) == old(self).spec_TXA(old(bus)@),
    {
        self.reg.A = self.reg.X;
        self.reg.P.set_ZN(self.reg.A);
    }

    fn TAY(&mut self, bus: &mut Bus)
        ensures
            (*final(self), final(bus)@) == old(self).spec_TAY(old(bus)@),
    {
        self.reg.Y = self.reg.A;
        self.reg.P.set_ZN(self.reg.Y);
    }

    fn TYA(&mut self, bus: &mut Bus)
        ensures
            (*final(self), final(bus)@) == old(self).spec_TYA(old(bus)@),
    {
        self.reg.A = self.reg.Y;
        self.reg.P.set_ZN(self.reg.A);
    }

    fn TSX(&mut self, bus: &mut Bus)
        ensures
            (*final(self), final(bus)@) == old(self).spec_TSX(old(bus)@),
    {
        self.reg.X = self.reg.S;
        self.reg.P.set_ZN(self.reg.X);
    }

    fn TXS(&mut self, bus: &mut Bus)
        ensures
            (*final(self), final(bus)@) == old(self).spec_TXS(old(bus)@),
    {
        self.reg.S = self.reg.X;
    }

    fn PHA(&mut self, bus: &mut Bus)
        ensures
            (*final(self), final(bus)@) == old(self).spec_PHA(old(bus)@),
    {
        let a: u8 = self.reg.A;
        self.push(bus, a);
    }

    fn PHP(&mut self, bus: &mut Bus)
        ensures
            (*final(self), final(bus)@) == old(self).spec_PHP(old(bus)@),
    {
        let p: u8 = self.reg.P.set_B(3);
        self.push(bus, p);
    }

    fn PLA(&mut self, bus: &mut Bus)
        ensures
            (*final(self), final(bus)@) == old(self).spec_PLA(old(bus)@),
    {
        let v: u8 = self.pull(bus);
        self.reg.A = v;
        self.reg.P.set_ZN(v);
    }

    fn PLP(&mut self, bus: &mut Bus)
        ensures
            (*final(self), final(bus)@) == old(self).spec_PLP(old(bus)@),
    {
        let v: u8 = self.pull(bus);
        self.reg.P.set_value(v);
    }

    fn BPL(&mut self, bus: &mut Bus)
        requires
            old(self).cycles_instr <= MAX_INSTR_CYCLES,
        ensures
            (*final(self), final(bus)@) == old(self).spec_BPL(old(bus)@),
    {
        if !self.reg.P.get_N() { self.branch(); }
    }

    fn BMI(&mut self, bus: &mut Bus)
        requires
            old(self).cycles_instr <= MAX_INSTR_CYCLES,
        ensures
            (*final(self), final(bus)@) == old(self).spec_BMI(old(bus)@),
    {
        if self.reg.P.get_N() { self.branch(); }
    }

    fn BVC(&mut self, bus: &mut Bus)
        requires
            old(self).cycles_instr <= MAX_INSTR_CYCLES,
        ensures
            (*final(self), final(bus)@) == old(self).spec_BVC(old(bus)@),
    {
        if !self.reg.P.get_V() { self.branch(); }
    }

    fn BVS(&mut self, bus: &mut Bus)
        requires
            old(self).cycles_instr <= MAX_INSTR_CYCLES,
        ensures
            (*final(self), final(bus)@) == old(self).spec_BVS(old(bus)@),
    {
        if self.reg.P.get_V() { self.branch(); }
    }

    fn BCC(&mut self, bus: &mut Bus)
        requires
            old(self).cycles_instr <= MAX_INSTR_CYCLES,
        ensures
            (*final(self), final(bus)@) == old(self).spec_BCC(old(bus)@),
    {
        if !self.reg.P.get_C() { self.branch(); }
    }

    fn BCS(&mut self, bus: &mut Bus)
        requires
            old(self).cycles_instr <= MAX_INSTR_CYCLES,
        ensures
            (*final(self), final(bus)@) == old(self).spec_BCS(old(bus)@),
    {
        if self.reg.P.get_C() { self.branch(); }
    }

    fn BNE(&mut self, bus: &mut Bus)
        requires
            old(self).cycles_instr <= MAX_INSTR_CYCLES,
        ensures
            (*final(self), final(bus)@) == old(self).spec_BNE(old(bus)@),
    {
        if !self.reg.P.get_Z() { self.branch(); }
    }

    fn BEQ(&mut self, bus: &mut Bus)
        requires
            old(self).cycles_instr <= MAX_INSTR_CYCLES,
        ensures
            (*final(self), final(bus)@) == old(self).spec_BEQ(old(bus)@),
    {
        if self.reg.P.get_Z() { self.branch(); }
    }

    fn JMP(&mut self, bus: &mut Bus)
        ensures
            (*final(self), final(bus)@) == old(self).spec_JMP(old(bus)@),
    {
        self.reg.PC = self.addr_abs;
        self.as_jump = true;
    }

    fn JSR(&mut self, bus: &mut Bus)
        ensures
            (*final(self), final(bus)@) == old(self).spec_JSR(old(bus)@),
    {
        let ret: u16 = self.reg.PC.wrapping_sub(1);
        self.push(bus, (ret >> 8) as u8);
        self.push(bus, (ret & 0xFF) as u8);
        self.reg.PC = self.addr_abs;
        self.as_jump = true;
    }

    fn RTS(&mut self, bus: &mut Bus)
        ensures
            (*final(self), final(bus)@) == old(self).spec_RTS(old(bus)@),
    {
        let lo: u8 = self.pull(bus);
        let hi: u8 = self.pull(bus);
        self.reg.PC = (((hi as u16) << 8) | (lo as u16)).wrapping_add(1);
        self.as_jump = true;
    }

    fn RTI(&mut self, bus: &mut Bus)
        ensures
            (*final(self), final(bus)@) == old(self).spec_RTI(old(bus)@),
    {
        let p: u8 = self.pull(bus);
        self.reg.P.set_value(p);
        let lo: u8 = self.pull(bus);
        let hi: u8 = self.pull(bus);
        self.reg.PC = ((hi as u16) << 8) | (lo as u16);
        self.as_jump = true;
    }

    fn BRK(&mut self, bus: &mut Bus)
        ensures
            (*final(self), final(bus)@) == old(self).spec_BRK(old(bus)@),
    {
        let ret: u16 = self.reg.PC.wrapping_add(1);
        let p: u8 = self.reg.P.set_B(3);
        self.push(bus, (ret >> 8) as u8);
        self.push(bus, (ret & 0xFF) as u8);
        self.push(bus, p);
        self.reg.P.set_I(true);
        self.reg.PC = Self::read16(bus, IRQ_VECTOR);
        self.as_jump = true;
    }

    fn CLC(&mut self, bus: &mut Bus)
        ensures
            (*final(self), final(bus)@) == old(self).spec_CLC(old(bus)@),
    {
        self.reg.P.set_C(false);
    }

    fn SEC(&mut self, bus: &mut Bus)
        ensures
            (*final(self), final(bus)@) == old(self).spec_SEC(old(bus)@),
    {
        self.reg.P.set_C(true);
    }

    fn CLD(&mut self, bus: &mut Bus)
        ensures
            (*final(self), final(bus)@) == old(self).spec_CLD(old(bus)@),
    {
        self.reg.P.set_D(false);
    }

    fn SED(&mut self, bus: &mut Bus)
        ensures
            (*final(self), final(bus)@) == old(self).spec_SED(old(bus)@),
    {
        self.reg.P.set_D(true);
    }

    fn CLI(&mut self, bus: &mut Bus)
        ensures
            (*final(self), final(bus)@) == old(self).spec_CLI(old(bus)@),
    {
        self.reg.P.set_I(false);
    }

    fn SEI(&mut self, bus: &mut Bus)
        ensures
            (*final(self), final(bus)@) == old(self).spec_SEI(old(bus)@),
    {
        self.reg.P.set_I(true);
    }

    fn CLV(&mut self, bus: &mut Bus)
        ensures
            (*final(self), final(bus)@) == old(self).spec_CLV(old(bus)@),
    {
        self.reg.P.set_V(false);
    }

    fn SLO(&mut self, bus: &mut Bus)
        ensures
            (*final(self), final(bus)@) == old(self).spec_SLO(old(bus)@),
    {
        self.ASL(bus);
        self.ORA(bus);
    }

    fn RLA(&mut self, bus: &mut Bus)
        ensures
            (*final(self), final(bus)@) == old(self).spec_RLA(old(bus)@),
    {
        self.ROL(bus);
        self.AND(bus);
    }

    fn SRE(&mut self, bus: &mut Bus)
        ensures
            (*final(self), final(bus)@) == old(self).spec_SRE(old(bus)@),
    {
        self.LSR(bus);
        self.EOR(bus);
    }

    fn RRA(&mut self, bus: &mut Bus)
        ensures
            (*final(self), final(bus)@) == old(self).spec_RRA(old(bus)@),
    {
        self.ROR(bus);
        self.ADC(bus);
    }

    fn LAX(&mut self, bus: &mut Bus)
        ensures
            (*final(self), final(bus)@) == old(self).spec_LAX(old(bus)@),
    {
        self.LDA(bus);
        self.LDX(bus);
    }

    fn DCP(&mut self, bus: &mut Bus)
        ensures
            (*final(self), final(bus)@) == old(self).spec_DCP(old(bus)@),
    {
        self.DEC(bus);
        self.CMP(bus);
    }

    fn ISC(&mut self, bus: &mut Bus)
        ensures
            (*final(self), final(bus)@) == old(self).spec_ISC(old(bus)@),
    {
        self.INC(bus);
        self.SBC(bus);
    }

    fn SAX(&mut self, bus: &mut Bus)
        ensures
            (*final(self), final(bus)@) == old(self).spec_SAX(old(bus)@),
    {
        bus.write(self.addr_abs as usize, self.reg.A & self.reg.X);
    }

    fn ANC(&mut self, bus: &mut Bus)
        ensures
            (*final(self), final(bus)@) == old(self).spec_ANC(old(bus)@),
    {
        self.AND(bus);
        self.reg.P.set_C(self.reg.A & 0b1000_0000 != 0);
    }

    fn ALR(&mut self, bus: &mut Bus)
        ensures
            (*final(self), final(bus)@) == old(self).spec_ALR(old(bus)@),
    {
        self.AND(bus);
        let (r, p) = do_lsr(self.reg.A, self.reg.P);
        self.reg.A = r;
        self.reg.P = p;
        self.operand.0 = r;
    }

    fn ARR(&mut self, bus: &mut Bus)
        ensures
            (*final(self), final(bus)@) == old(self).spec_ARR(old(bus)@),
    {
        self.AND(bus);
        let (r, p) = do_ror(self.reg.A, self.reg.P);
        self.reg.A = r;
        self.reg.P = p;
        self.operand.0 = r;
    }
}

} // verus!

verus! {

/// Whether an instruction is one of the eight conditional branches.
pub open spec fn is_branch(instr: Instruction) -> bool {
    instr == Instruction::BPL || instr == Instruction::BMI || instr == Instruction::BVC || instr
        == Instruction::BVS || instr == Instruction::BCC || instr == Instruction::BCS || instr
        == Instruction::BNE || instr == Instruction::BEQ
}

/// Whether a branch instruction is taken under a status.
pub open spec fn branch_taken(instr: Instruction, p: crate::cpu::alu::StatusReg) -> bool {
    match instr {
        Instruction::BPL => !p.flag(FLAG_N),
        Instruction::BMI => p.flag(FLAG_N),
        Instruction::BVC => !p.flag(FLAG_V),
        Instruction::BVS => p.flag(FLAG_V),
        Instruction::BCC => !p.flag(FLAG_C),
        Instruction::BCS => p.flag(FLAG_C),
        Instruction::BNE => !p.flag(FLAG_Z),
        Instruction::BEQ => p.flag(FLAG_Z),
        _ => false,
    }
}

/// Every branch opcode decodes to relative mode with a base count of two
/// cycles and the page-crossing penalty.
pub proof fn lemma_branch_opcodes(opcode: u8)
    requires
        is_branch(crate::cpu::opcode::instr_of(opcode)),
    ensures
        crate::cpu::opcode::decode(opcode).mode == OpMode::REL,
        crate::cpu::opcode::decode(opcode).cycles == 2,
        crate::cpu::opcode::decode(opcode).cycle_inc_pbc,
{
}

/// A branch, once fetched: taken, it goes to the program counter plus its
/// signed operand and takes its base count plus one cycle, plus one more
/// when the high byte of the new program counter differs from that of the
/// old one; not taken, it leaves the program counter and takes its base
/// count.
pub proof fn lemma_branch_cycles(cpu: CPU, bus: BusView, opcode: u8)
    requires
        is_branch(crate::cpu::opcode::instr_of(opcode)),
        cpu.instr == crate::cpu::opcode::decode(opcode),
    ensures
        ({
            let (c, b) = cpu.spec_exec_instr(bus);
            let taken = branch_taken(cpu.instr.instr, cpu.reg.P);
            &&& b == bus
            &&& c.reg.PC == if taken {
                branch_target(cpu.reg.PC, cpu.operand.0)
            } else {
                cpu.reg.PC
            }
            &&& c.cycles_instr == cpu.instr.cycles + if !taken {
                0int
            } else if (c.reg.PC >> 8) != (cpu.reg.PC >> 8) {
                2int
            } else {
                1int
            }
        }),
{
    lemma_branch_opcodes(opcode);
}

/// The target of a branch is the program counter plus the operand as a
/// signed byte, modulo 65536.
pub proof fn lemma_branch_target(pc: u16, operand: u8)
    ensures
        branch_target(pc, operand) == (pc + signed_offset(operand)) % 0x1_0000,
{
    let ext: u16 = 0xFF00u16 | (operand as u16);
    assert(operand >= 128 ==> ext == 0xFF00 + operand) by (bit_vector)
        requires
            ext == 0xFF00u16 | (operand as u16),
    ;
}

} // verus!

verus! {

/// The instruction CMP, once fetched: the flags are those of the
/// comparison of the accumulator with the operand, so that an accumulator
/// that is not below the operand sets the carry, and N is bit 7 of their
/// difference modulo 256.
pub proof fn lemma_compare_with_a(cpu: CPU, bus: BusView)
    requires
        cpu.instr.instr == Instruction::CMP,
    ensures
        ({
            let (c, _b) = cpu.spec_exec_instr(bus);
            let m = c.operand.0;
            &&& c.reg.P == compare(cpu.reg.A, m, cpu.reg.P)
            &&& cpu.reg.A >= m ==> c.reg.P.flag(FLAG_C) && c.reg.P.flag(FLAG_N) == ((((cpu.reg.A - m)
                % 256) as u8) & 0b1000_0000 != 0)
        }),
{
    let (c, _b) = cpu.spec_exec_instr(bus);
    if cpu.reg.A >= c.operand.0 {
        crate::cpu::alu::lemma_compare_not_below(cpu.reg.A, c.operand.0, cpu.reg.P);
    }
}

/// The instruction CPX, once fetched: as CMP, with X in place of the
/// accumulator.
pub proof fn lemma_compare_with_x(cpu: CPU, bus: BusView)
    requires
        cpu.instr.instr == Instruction::CPX,
    ensures
        ({
            let (c, _b) = cpu.spec_exec_instr(bus);
            let m = c.operand.0;
            &&& c.reg.P == compare(cpu.reg.X, m, cpu.reg.P)
            &&& cpu.reg.X >= m ==> c.reg.P.flag(FLAG_C) && c.reg.P.flag(FLAG_N) == ((((cpu.reg.X - m)
                % 256) as u8) & 0b1000_0000 != 0)
        }),
{
    let (c, _b) = cpu.spec_exec_instr(bus);
    if cpu.reg.X >= c.operand.0 {
        crate::cpu::alu::lemma_compare_not_below(cpu.reg.X, c.operand.0, cpu.reg.P);
    }
}

/// The instruction CPY, once fetched: as CMP, with Y in place of the
/// accumulator.
pub proof fn lemma_compare_with_y(cpu: CPU, bus: BusView)
    requires
        cpu.instr.instr == Instruction::CPY,
    ensures
        ({
            let (c, _b) = cpu.spec_exec_instr(bus);
            let m = c.operand.0;
            &&& c.reg.P == compare(cpu.reg.Y, m, cpu.reg.P)
            &&& cpu.reg.Y >= m ==> c.reg.P.flag(FLAG_C) && c.reg.P.flag(FLAG_N) == ((((cpu.reg.Y - m)
                % 256) as u8) & 0b1000_0000 != 0)
        }),
{
    let (c, _b) = cpu.spec_exec_instr(bus);
    if cpu.reg.Y >= c.operand.0 {
        crate::cpu::alu::lemma_compare_not_below(cpu.reg.Y, c.operand.0, cpu.reg.P);
    }
}

/// The instruction ADC, once fetched: the accumulator becomes the sum of
/// the accumulator, the operand and the carry modulo 256, and V is set
/// exactly when the sign of the result differs from the signs of both.
pub proof fn lemma_adc_instruction(cpu: CPU, bus: BusView)
    requires
        cpu.instr.instr == Instruction::ADC,
    ensures
        ({
            let (c, _b) = cpu.spec_exec_instr(bus);
            let m = c.operand.0;
            &&& c.reg.A == (cpu.reg.A + m + crate::cpu::alu::carry_in(cpu.reg.P)) % 256
            &&& c.reg.P.flag(FLAG_V) == ((cpu.reg.A ^ c.reg.A) & (m ^ c.reg.A) & 0b1000_0000 != 0)
            &&& c.reg.P.flag(FLAG_C) == (cpu.reg.A + m + crate::cpu::alu::carry_in(cpu.reg.P) >= 256)
        }),
{
    let (c, _b) = cpu.spec_exec_instr(bus);
    crate::cpu::alu::lemma_adc(cpu.reg.A, c.operand.0, cpu.reg.P);
}

} // verus!
