//! The CPU on buses that are alike: what it does, and what it leaves on
//! the bus, is the same, whatever the sound unit has queued or holds in
//! registers that no read shows, and whatever the count of cycles and the
//! last trace line are, as long as the count is even on both sides or odd
//! on both.

use vstd::prelude::*;
use crate::bus::{alike, lemma_dma_tick_alike, lemma_read_alike, lemma_write_alike, BusView};
use crate::cpu::opcode::{Instruction, OpMode};
use crate::cpu::CPU;

verus! {

/// Whether two CPUs are the same but for the count of cycles, which is
/// even on both or odd on both, and the last trace line.
pub open spec fn same_cpu(c: CPU, d: CPU) -> bool {
    &&& d == (CPU { cycles_frame: d.cycles_frame, last_trace: d.last_trace, ..c })
    &&& d.cycles_frame % 2 == c.cycles_frame % 2
}

/// Whether a step of the CPU comes out the same from two CPUs on two
/// buses.
pub open spec fn same_step(x: (CPU, BusView), y: (CPU, BusView)) -> bool {
    same_cpu(x.0, y.0) && alike(x.1, y.1)
}

pub proof fn lemma_push_alike(c: CPU, d: CPU, a: BusView, b: BusView, value: u8)
    requires
        same_cpu(c, d),
        alike(a, b),
    ensures
        same_step(c.spec_push(a, value), d.spec_push(b, value)),
{
    lemma_write_alike();
}

pub proof fn lemma_pull_alike(c: CPU, d: CPU, a: BusView, b: BusView)
    requires
        same_cpu(c, d),
        alike(a, b),
    ensures
        c.spec_pull(a).0 == d.spec_pull(b).0,
        same_cpu(c.spec_pull(a).1, d.spec_pull(b).1),
        alike(c.spec_pull(a).2, d.spec_pull(b).2),
{
    lemma_read_alike();
}

pub proof fn lemma_read16_alike(a: BusView, b: BusView, addr: usize)
    requires
        alike(a, b),
    ensures
        CPU::spec_read16(a, addr).0 == CPU::spec_read16(b, addr).0,
        alike(CPU::spec_read16(a, addr).1, CPU::spec_read16(b, addr).1),
{
    lemma_read_alike();
}

pub proof fn lemma_load_operand_alike(c: CPU, d: CPU, a: BusView, b: BusView)
    requires
        same_cpu(c, d),
        alike(a, b),
    ensures
        same_step(c.spec_load_operand(a), d.spec_load_operand(b)),
{
    lemma_read_alike();
}

pub proof fn lemma_addressing_alike(c: CPU, d: CPU, a: BusView, b: BusView)
    requires
        same_cpu(c, d),
        alike(a, b),
    ensures
        same_step(c.spec_addressing(a), d.spec_addressing(b)),
{
    lemma_read_alike();
    match c.instr.mode {
        OpMode::IZX => {
            assert(same_step(c.spec_addressing(a), d.spec_addressing(b)));
        },
        OpMode::IZY => {
            assert(same_step(c.spec_addressing(a), d.spec_addressing(b)));
        },
        OpMode::IND => {
            assert(same_step(c.spec_addressing(a), d.spec_addressing(b)));
        },
        OpMode::ABX => {
            assert(same_step(c.spec_addressing(a), d.spec_addressing(b)));
        },
        OpMode::ABY => {
            assert(same_step(c.spec_addressing(a), d.spec_addressing(b)));
        },
        OpMode::REL => {
            assert(same_step(c.spec_addressing(a), d.spec_addressing(b)));
        },
        _ => {
            assert(same_step(c.spec_addressing(a), d.spec_addressing(b)));
        },
    }
}

pub proof fn lemma_read_instr_alike(c: CPU, d: CPU, a: BusView, b: BusView)
    requires
        same_cpu(c, d),
        alike(a, b),
    ensures
        same_step(c.spec_read_instr(a), d.spec_read_instr(b)),
{
    lemma_read_alike();
}

pub proof fn lemma_interrupt_alike(c: CPU, d: CPU, a: BusView, b: BusView, vector: usize)
    requires
        same_cpu(c, d),
        alike(a, b),
    ensures
        same_step(c.spec_interrupt(a, vector), d.spec_interrupt(b, vector)),
{
    reveal(CPU::spec_interrupt);
    let high = (c.reg.PC >> 8) as u8;
    let low = (c.reg.PC & 0xFF) as u8;
    lemma_push_alike(c, d, a, b, high);
    let (c1, a1) = c.spec_push(a, high);
    let (d1, b1) = d.spec_push(b, high);
    lemma_push_alike(c1, d1, a1, b1, low);
    let (c2, a2) = c1.spec_push(a1, low);
    let (d2, b2) = d1.spec_push(b1, low);
    lemma_push_alike(c2, d2, a2, b2, c.reg.P.pushed(2));
    let (_c3, a3) = c2.spec_push(a2, c.reg.P.pushed(2));
    let (_d3, b3) = d2.spec_push(b2, c.reg.P.pushed(2));
    lemma_read16_alike(a3, b3, vector);
}

#[allow(non_snake_case)]
pub proof fn lemma_ORA_alike(c: CPU, d: CPU, a: BusView, b: BusView)
    requires
        same_cpu(c, d),
        alike(a, b),
    ensures
        same_step(c.spec_ORA(a), d.spec_ORA(b)),
{
    lemma_read_alike();
    lemma_write_alike();
}

#[allow(non_snake_case)]
pub proof fn lemma_AND_alike(c: CPU, d: CPU, a: BusView, b: BusView)
    requires
        same_cpu(c, d),
        alike(a, b),
    ensures
        same_step(c.spec_AND(a), d.spec_AND(b)),
{
    lemma_read_alike();
    lemma_write_alike();
}

#[allow(non_snake_case)]
pub proof fn lemma_BIT_alike(c: CPU, d: CPU, a: BusView, b: BusView)
    requires
        same_cpu(c, d),
        alike(a, b),
    ensures
        same_step(c.spec_BIT(a), d.spec_BIT(b)),
{
    lemma_read_alike();
    lemma_write_alike();
}

#[allow(non_snake_case)]
pub proof fn lemma_EOR_alike(c: CPU, d: CPU, a: BusView, b: BusView)
    requires
        same_cpu(c, d),
        alike(a, b),
    ensures
        same_step(c.spec_EOR(a), d.spec_EOR(b)),
{
    lemma_read_alike();
    lemma_write_alike();
}

#[allow(non_snake_case)]
pub proof fn lemma_ADC_alike(c: CPU, d: CPU, a: BusView, b: BusView)
    requires
        same_cpu(c, d),
        alike(a, b),
    ensures
        same_step(c.spec_ADC(a), d.spec_ADC(b)),
{
    lemma_read_alike();
    lemma_write_alike();
}

#[allow(non_snake_case)]
pub proof fn lemma_CMP_alike(c: CPU, d: CPU, a: BusView, b: BusView)
    requires
        same_cpu(c, d),
        alike(a, b),
    ensures
        same_step(c.spec_CMP(a), d.spec_CMP(b)),
{
    lemma_read_alike();
    lemma_write_alike();
}

#[allow(non_snake_case)]
pub proof fn lemma_CPX_alike(c: CPU, d: CPU, a: BusView, b: BusView)
    requires
        same_cpu(c, d),
        alike(a, b),
    ensures
        same_step(c.spec_CPX(a), d.spec_CPX(b)),
{
    lemma_read_alike();
    lemma_write_alike();
}

#[allow(non_snake_case)]
pub proof fn lemma_CPY_alike(c: CPU, d: CPU, a: BusView, b: BusView)
    requires
        same_cpu(c, d),
        alike(a, b),
    ensures
        same_step(c.spec_CPY(a), d.spec_CPY(b)),
{
    lemma_read_alike();
    lemma_write_alike();
}

#[allow(non_snake_case)]
pub proof fn lemma_DEC_alike(c: CPU, d: CPU, a: BusView, b: BusView)
    requires
        same_cpu(c, d),
        alike(a, b),
    ensures
        same_step(c.spec_DEC(a), d.spec_DEC(b)),
{
    lemma_read_alike();
    lemma_write_alike();
}

#[allow(non_snake_case)]
pub proof fn lemma_DEX_alike(c: CPU, d: CPU, a: BusView, b: BusView)
    requires
        same_cpu(c, d),
        alike(a, b),
    ensures
        same_step(c.spec_DEX(a), d.spec_DEX(b)),
{
    lemma_read_alike();
    lemma_write_alike();
}

#[allow(non_snake_case)]
pub proof fn lemma_DEY_alike(c: CPU, d: CPU, a: BusView, b: BusView)
    requires
        same_cpu(c, d),
        alike(a, b),
    ensures
        same_step(c.spec_DEY(a), d.spec_DEY(b)),
{
    lemma_read_alike();
    lemma_write_alike();
}

#[allow(non_snake_case)]
pub proof fn lemma_INC_alike(c: CPU, d: CPU, a: BusView, b: BusView)
    requires
        same_cpu(c, d),
        alike(a, b),
    ensures
        same_step(c.spec_INC(a), d.spec_INC(b)),
{
    lemma_read_alike();
    lemma_write_alike();
}

#[allow(non_snake_case)]
pub proof fn lemma_INX_alike(c: CPU, d: CPU, a: BusView, b: BusView)
    requires
        same_cpu(c, d),
        alike(a, b),
    ensures
        same_step(c.spec_INX(a), d.spec_INX(b)),
{
    lemma_read_alike();
    lemma_write_alike();
}

#[allow(non_snake_case)]
pub proof fn lemma_INY_alike(c: CPU, d: CPU, a: BusView, b: BusView)
    requires
        same_cpu(c, d),
        alike(a, b),
    ensures
        same_step(c.spec_INY(a), d.spec_INY(b)),
{
    lemma_read_alike();
    lemma_write_alike();
}

#[allow(non_snake_case)]
pub proof fn lemma_ASL_alike(c: CPU, d: CPU, a: BusView, b: BusView)
    requires
        same_cpu(c, d),
        alike(a, b),
    ensures
        same_step(c.spec_ASL(a), d.spec_ASL(b)),
{
    lemma_read_alike();
    lemma_write_alike();
}

#[allow(non_snake_case)]
pub proof fn lemma_ROL_alike(c: CPU, d: CPU, a: BusView, b: BusView)
    requires
        same_cpu(c, d),
        alike(a, b),
    ensures
        same_step(c.spec_ROL(a), d.spec_ROL(b)),
{
    lemma_read_alike();
    lemma_write_alike();
}

#[allow(non_snake_case)]
pub proof fn lemma_LSR_alike(c: CPU, d: CPU, a: BusView, b: BusView)
    requires
        same_cpu(c, d),
        alike(a, b),
    ensures
        same_step(c.spec_LSR(a), d.spec_LSR(b)),
{
    lemma_read_alike();
    lemma_write_alike();
}

#[allow(non_snake_case)]
pub proof fn lemma_ROR_alike(c: CPU, d: CPU, a: BusView, b: BusView)
    requires
        same_cpu(c, d),
        alike(a, b),
    ensures
        same_step(c.spec_ROR(a), d.spec_ROR(b)),
{
    lemma_read_alike();
    lemma_write_alike();
}

#[allow(non_snake_case)]
pub proof fn lemma_LDA_alike(c: CPU, d: CPU, a: BusView, b: BusView)
    requires
        same_cpu(c, d),
        alike(a, b),
    ensures
        same_step(c.spec_LDA(a), d.spec_LDA(b)),
{
    lemma_read_alike();
    lemma_write_alike();
}

#[allow(non_snake_case)]
pub proof fn lemma_LDX_alike(c: CPU, d: CPU, a: BusView, b: BusView)
    requires
        same_cpu(c, d),
        alike(a, b),
    ensures
        same_step(c.spec_LDX(a), d.spec_LDX(b)),
{
    lemma_read_alike();
    lemma_write_alike();
}

#[allow(non_snake_case)]
pub proof fn lemma_LDY_alike(c: CPU, d: CPU, a: BusView, b: BusView)
    requires
        same_cpu(c, d),
        alike(a, b),
    ensures
        same_step(c.spec_LDY(a), d.spec_LDY(b)),
{
    lemma_read_alike();
    lemma_write_alike();
}

#[allow(non_snake_case)]
pub proof fn lemma_STA_alike(c: CPU, d: CPU, a: BusView, b: BusView)
    requires
        same_cpu(c, d),
        alike(a, b),
    ensures
        same_step(c.spec_STA(a), d.spec_STA(b)),
{
    lemma_read_alike();
    lemma_write_alike();
}

#[allow(non_snake_case)]
pub proof fn lemma_STX_alike(c: CPU, d: CPU, a: BusView, b: BusView)
    requires
        same_cpu(c, d),
        alike(a, b),
    ensures
        same_step(c.spec_STX(a), d.spec_STX(b)),
{
    lemma_read_alike();
    lemma_write_alike();
}

#[allow(non_snake_case)]
pub proof fn lemma_STY_alike(c: CPU, d: CPU, a: BusView, b: BusView)
    requires
        same_cpu(c, d),
        alike(a, b),
    ensures
        same_step(c.spec_STY(a), d.spec_STY(b)),
{
    lemma_read_alike();
    lemma_write_alike();
}

#[allow(non_snake_case)]
pub proof fn lemma_TAX_alike(c: CPU, d: CPU, a: BusView, b: BusView)
    requires
        same_cpu(c, d),
        alike(a, b),
    ensures
        same_step(c.spec_TAX(a), d.spec_TAX(b)),
{
    lemma_read_alike();
    lemma_write_alike();
}

#[allow(non_snake_case)]
pub proof fn lemma_TXA_alike(c: CPU, d: CPU, a: BusView, b: BusView)
    requires
        same_cpu(c, d),
        alike(a, b),
    ensures
        same_step(c.spec_TXA(a), d.spec_TXA(b)),
{
    lemma_read_alike();
    lemma_write_alike();
}

#[allow(non_snake_case)]
pub proof fn lemma_TAY_alike(c: CPU, d: CPU, a: BusView, b: BusView)
    requires
        same_cpu(c, d),
        alike(a, b),
    ensures
        same_step(c.spec_TAY(a), d.spec_TAY(b)),
{
    lemma_read_alike();
    lemma_write_alike();
}

#[allow(non_snake_case)]
pub proof fn lemma_TYA_alike(c: CPU, d: CPU, a: BusView, b: BusView)
    requires
        same_cpu(c, d),
        alike(a, b),
    ensures
        same_step(c.spec_TYA(a), d.spec_TYA(b)),
{
    lemma_read_alike();
    lemma_write_alike();
}

#[allow(non_snake_case)]
pub proof fn lemma_TSX_alike(c: CPU, d: CPU, a: BusView, b: BusView)
    requires
        same_cpu(c, d),
        alike(a, b),
    ensures
        same_step(c.spec_TSX(a), d.spec_TSX(b)),
{
    lemma_read_alike();
    lemma_write_alike();
}

#[allow(non_snake_case)]
pub proof fn lemma_TXS_alike(c: CPU, d: CPU, a: BusView, b: BusView)
    requires
        same_cpu(c, d),
        alike(a, b),
    ensures
        same_step(c.spec_TXS(a), d.spec_TXS(b)),
{
    lemma_read_alike();
    lemma_write_alike();
}

#[allow(non_snake_case)]
pub proof fn lemma_PLA_alike(c: CPU, d: CPU, a: BusView, b: BusView)
    requires
        same_cpu(c, d),
        alike(a, b),
    ensures
        same_step(c.spec_PLA(a), d.spec_PLA(b)),
{
    lemma_pull_alike(c, d, a, b);
}

#[allow(non_snake_case)]
pub proof fn lemma_PHA_alike(c: CPU, d: CPU, a: BusView, b: BusView)
    requires
        same_cpu(c, d),
        alike(a, b),
    ensures
        same_step(c.spec_PHA(a), d.spec_PHA(b)),
{
    lemma_write_alike();
}

#[allow(non_snake_case)]
pub proof fn lemma_PLP_alike(c: CPU, d: CPU, a: BusView, b: BusView)
    requires
        same_cpu(c, d),
        alike(a, b),
    ensures
        same_step(c.spec_PLP(a), d.spec_PLP(b)),
{
    lemma_pull_alike(c, d, a, b);
}

#[allow(non_snake_case)]
pub proof fn lemma_PHP_alike(c: CPU, d: CPU, a: BusView, b: BusView)
    requires
        same_cpu(c, d),
        alike(a, b),
    ensures
        same_step(c.spec_PHP(a), d.spec_PHP(b)),
{
    lemma_write_alike();
}

#[allow(non_snake_case)]
pub proof fn lemma_BPL_alike(c: CPU, d: CPU, a: BusView, b: BusView)
    requires
        same_cpu(c, d),
        alike(a, b),
    ensures
        same_step(c.spec_BPL(a), d.spec_BPL(b)),
{
    lemma_read_alike();
    lemma_write_alike();
}

#[allow(non_snake_case)]
pub proof fn lemma_BMI_alike(c: CPU, d: CPU, a: BusView, b: BusView)
    requires
        same_cpu(c, d),
        alike(a, b),
    ensures
        same_step(c.spec_BMI(a), d.spec_BMI(b)),
{
    lemma_read_alike();
    lemma_write_alike();
}

#[allow(non_snake_case)]
pub proof fn lemma_BVC_alike(c: CPU, d: CPU, a: BusView, b: BusView)
    requires
        same_cpu(c, d),
        alike(a, b),
    ensures
        same_step(c.spec_BVC(a), d.spec_BVC(b)),
{
    lemma_read_alike();
    lemma_write_alike();
}

#[allow(non_snake_case)]
pub proof fn lemma_BVS_alike(c: CPU, d: CPU, a: BusView, b: BusView)
    requires
        same_cpu(c, d),
        alike(a, b),
    ensures
        same_step(c.spec_BVS(a), d.spec_BVS(b)),
{
    lemma_read_alike();
    lemma_write_alike();
}

#[allow(non_snake_case)]
pub proof fn lemma_BCC_alike(c: CPU, d: CPU, a: BusView, b: BusView)
    requires
        same_cpu(c, d),
        alike(a, b),
    ensures
        same_step(c.spec_BCC(a), d.spec_BCC(b)),
{
    lemma_read_alike();
    lemma_write_alike();
}

#[allow(non_snake_case)]
pub proof fn lemma_BCS_alike(c: CPU, d: CPU, a: BusView, b: BusView)
    requires
        same_cpu(c, d),
        alike(a, b),
    ensures
        same_step(c.spec_BCS(a), d.spec_BCS(b)),
{
    lemma_read_alike();
    lemma_write_alike();
}

#[allow(non_snake_case)]
pub proof fn lemma_BNE_alike(c: CPU, d: CPU, a: BusView, b: BusView)
    requires
        same_cpu(c, d),
        alike(a, b),
    ensures
        same_step(c.spec_BNE(a), d.spec_BNE(b)),
{
    lemma_read_alike();
    lemma_write_alike();
}

#[allow(non_snake_case)]
pub proof fn lemma_BEQ_alike(c: CPU, d: CPU, a: BusView, b: BusView)
    requires
        same_cpu(c, d),
        alike(a, b),
    ensures
        same_step(c.spec_BEQ(a), d.spec_BEQ(b)),
{
    lemma_read_alike();
    lemma_write_alike();
}

#[allow(non_snake_case)]
pub proof fn lemma_JMP_alike(c: CPU, d: CPU, a: BusView, b: BusView)
    requires
        same_cpu(c, d),
        alike(a, b),
    ensures
        same_step(c.spec_JMP(a), d.spec_JMP(b)),
{
    lemma_read_alike();
    lemma_write_alike();
}

#[allow(non_snake_case)]
pub proof fn lemma_JSR_alike(c: CPU, d: CPU, a: BusView, b: BusView)
    requires
        same_cpu(c, d),
        alike(a, b),
    ensures
        same_step(c.spec_JSR(a), d.spec_JSR(b)),
{
    let ret = c.reg.PC.wrapping_sub(1);
    let high = (ret >> 8) as u8;
    let low = (ret & 0xFF) as u8;
    lemma_push_alike(c, d, a, b, high);
    let (c1, a1) = c.spec_push(a, high);
    let (d1, b1) = d.spec_push(b, high);
    lemma_push_alike(c1, d1, a1, b1, low);
}

#[allow(non_snake_case)]
pub proof fn lemma_RTS_alike(c: CPU, d: CPU, a: BusView, b: BusView)
    requires
        same_cpu(c, d),
        alike(a, b),
    ensures
        same_step(c.spec_RTS(a), d.spec_RTS(b)),
{
    lemma_pull_alike(c, d, a, b);
    let (_lo, c1, a1) = c.spec_pull(a);
    let (_lo2, d1, b1) = d.spec_pull(b);
    lemma_pull_alike(c1, d1, a1, b1);
}

#[allow(non_snake_case)]
pub proof fn lemma_RTI_alike(c: CPU, d: CPU, a: BusView, b: BusView)
    requires
        same_cpu(c, d),
        alike(a, b),
    ensures
        same_step(c.spec_RTI(a), d.spec_RTI(b)),
{
    lemma_pull_alike(c, d, a, b);
    let (p, c0, a0) = c.spec_pull(a);
    let (_q, d0, b0) = d.spec_pull(b);
    let c1 = c0.set_p(c0.reg.P.pulled(p));
    let d1 = d0.set_p(d0.reg.P.pulled(p));
    lemma_pull_alike(c1, d1, a0, b0);
    let (_lo, c2, a2) = c1.spec_pull(a0);
    let (_lo2, d2, b2) = d1.spec_pull(b0);
    lemma_pull_alike(c2, d2, a2, b2);
}

#[allow(non_snake_case)]
pub proof fn lemma_BRK_alike(c: CPU, d: CPU, a: BusView, b: BusView)
    requires
        same_cpu(c, d),
        alike(a, b),
    ensures
        same_step(c.spec_BRK(a), d.spec_BRK(b)),
{
    let ret = c.reg.PC.wrapping_add(1);
    let high = (ret >> 8) as u8;
    let low = (ret & 0xFF) as u8;
    lemma_push_alike(c, d, a, b, high);
    let (c1, a1) = c.spec_push(a, high);
    let (d1, b1) = d.spec_push(b, high);
    lemma_push_alike(c1, d1, a1, b1, low);
    let (c2, a2) = c1.spec_push(a1, low);
    let (d2, b2) = d1.spec_push(b1, low);
    lemma_push_alike(c2, d2, a2, b2, c.reg.P.pushed(3));
    let (_c3, a3) = c2.spec_push(a2, c.reg.P.pushed(3));
    let (_d3, b3) = d2.spec_push(b2, c.reg.P.pushed(3));
    lemma_read16_alike(a3, b3, crate::cpu::IRQ_VECTOR);
}

#[allow(non_snake_case)]
pub proof fn lemma_CLC_alike(c: CPU, d: CPU, a: BusView, b: BusView)
    requires
        same_cpu(c, d),
        alike(a, b),
    ensures
        same_step(c.spec_CLC(a), d.spec_CLC(b)),
{
    lemma_read_alike();
    lemma_write_alike();
}

#[allow(non_snake_case)]
pub proof fn lemma_SEC_alike(c: CPU, d: CPU, a: BusView, b: BusView)
    requires
        same_cpu(c, d),
        alike(a, b),
    ensures
        same_step(c.spec_SEC(a), d.spec_SEC(b)),
{
    lemma_read_alike();
    lemma_write_alike();
}

#[allow(non_snake_case)]
pub proof fn lemma_CLD_alike(c: CPU, d: CPU, a: BusView, b: BusView)
    requires
        same_cpu(c, d),
        alike(a, b),
    ensures
        same_step(c.spec_CLD(a), d.spec_CLD(b)),
{
    lemma_read_alike();
    lemma_write_alike();
}

#[allow(non_snake_case)]
pub proof fn lemma_SED_alike(c: CPU, d: CPU, a: BusView, b: BusView)
    requires
        same_cpu(c, d),
        alike(a, b),
    ensures
        same_step(c.spec_SED(a), d.spec_SED(b)),
{
    lemma_read_alike();
    lemma_write_alike();
}

#[allow(non_snake_case)]
pub proof fn lemma_CLI_alike(c: CPU, d: CPU, a: BusView, b: BusView)
    requires
        same_cpu(c, d),
        alike(a, b),
    ensures
        same_step(c.spec_CLI(a), d.spec_CLI(b)),
{
    lemma_read_alike();
    lemma_write_alike();
}

#[allow(non_snake_case)]
pub proof fn lemma_SEI_alike(c: CPU, d: CPU, a: BusView, b: BusView)
    requires
        same_cpu(c, d),
        alike(a, b),
    ensures
        same_step(c.spec_SEI(a), d.spec_SEI(b)),
{
    lemma_read_alike();
    lemma_write_alike();
}

#[allow(non_snake_case)]
pub proof fn lemma_CLV_alike(c: CPU, d: CPU, a: BusView, b: BusView)
    requires
        same_cpu(c, d),
        alike(a, b),
    ensures
        same_step(c.spec_CLV(a), d.spec_CLV(b)),
{
    lemma_read_alike();
    lemma_write_alike();
}

#[allow(non_snake_case)]
pub proof fn lemma_SAX_alike(c: CPU, d: CPU, a: BusView, b: BusView)
    requires
        same_cpu(c, d),
        alike(a, b),
    ensures
        same_step(c.spec_SAX(a), d.spec_SAX(b)),
{
    lemma_read_alike();
    lemma_write_alike();
}

#[allow(non_snake_case)]
pub proof fn lemma_SBC_alike(c: CPU, d: CPU, a: BusView, b: BusView)
    requires
        same_cpu(c, d),
        alike(a, b),
    ensures
        same_step(c.spec_SBC(a), d.spec_SBC(b)),
{
    lemma_load_operand_alike(c, d, a, b);
    let (c1, t) = c.spec_load_operand(a);
    let (d1, u) = d.spec_load_operand(b);
    lemma_ADC_alike(c1.set_op0(!c1.operand.0), d1.set_op0(!d1.operand.0), t, u);
}

#[allow(non_snake_case)]
pub proof fn lemma_ANC_alike(c: CPU, d: CPU, a: BusView, b: BusView)
    requires
        same_cpu(c, d),
        alike(a, b),
    ensures
        same_step(c.spec_ANC(a), d.spec_ANC(b)),
{
    lemma_AND_alike(c, d, a, b);
}

#[allow(non_snake_case)]
pub proof fn lemma_ALR_alike(c: CPU, d: CPU, a: BusView, b: BusView)
    requires
        same_cpu(c, d),
        alike(a, b),
    ensures
        same_step(c.spec_ALR(a), d.spec_ALR(b)),
{
    lemma_AND_alike(c, d, a, b);
}

#[allow(non_snake_case)]
pub proof fn lemma_ARR_alike(c: CPU, d: CPU, a: BusView, b: BusView)
    requires
        same_cpu(c, d),
        alike(a, b),
    ensures
        same_step(c.spec_ARR(a), d.spec_ARR(b)),
{
    lemma_AND_alike(c, d, a, b);
}

#[allow(non_snake_case)]
pub proof fn lemma_SLO_alike(c: CPU, d: CPU, a: BusView, b: BusView)
    requires
        same_cpu(c, d),
        alike(a, b),
    ensures
        same_step(c.spec_SLO(a), d.spec_SLO(b)),
{
    lemma_ASL_alike(c, d, a, b);
    let (c1, t) = c.spec_ASL(a);
    let (d1, u) = d.spec_ASL(b);
    lemma_ORA_alike(c1, d1, t, u);
}

#[allow(non_snake_case)]
pub proof fn lemma_RLA_alike(c: CPU, d: CPU, a: BusView, b: BusView)
    requires
        same_cpu(c, d),
        alike(a, b),
    ensures
        same_step(c.spec_RLA(a), d.spec_RLA(b)),
{
    lemma_ROL_alike(c, d, a, b);
    let (c1, t) = c.spec_ROL(a);
    let (d1, u) = d.spec_ROL(b);
    lemma_AND_alike(c1, d1, t, u);
}

#[allow(non_snake_case)]
pub proof fn lemma_SRE_alike(c: CPU, d: CPU, a: BusView, b: BusView)
    requires
        same_cpu(c, d),
        alike(a, b),
    ensures
        same_step(c.spec_SRE(a), d.spec_SRE(b)),
{
    lemma_LSR_alike(c, d, a, b);
    let (c1, t) = c.spec_LSR(a);
    let (d1, u) = d.spec_LSR(b);
    lemma_EOR_alike(c1, d1, t, u);
}

#[allow(non_snake_case)]
pub proof fn lemma_RRA_alike(c: CPU, d: CPU, a: BusView, b: BusView)
    requires
        same_cpu(c, d),
        alike(a, b),
    ensures
        same_step(c.spec_RRA(a), d.spec_RRA(b)),
{
    lemma_ROR_alike(c, d, a, b);
    let (c1, t) = c.spec_ROR(a);
    let (d1, u) = d.spec_ROR(b);
    lemma_ADC_alike(c1, d1, t, u);
}

#[allow(non_snake_case)]
pub proof fn lemma_LAX_alike(c: CPU, d: CPU, a: BusView, b: BusView)
    requires
        same_cpu(c, d),
        alike(a, b),
    ensures
        same_step(c.spec_LAX(a), d.spec_LAX(b)),
{
    lemma_LDA_alike(c, d, a, b);
    let (c1, t) = c.spec_LDA(a);
    let (d1, u) = d.spec_LDA(b);
    lemma_LDX_alike(c1, d1, t, u);
}

#[allow(non_snake_case)]
pub proof fn lemma_DCP_alike(c: CPU, d: CPU, a: BusView, b: BusView)
    requires
        same_cpu(c, d),
        alike(a, b),
    ensures
        same_step(c.spec_DCP(a), d.spec_DCP(b)),
{
    lemma_DEC_alike(c, d, a, b);
    let (c1, t) = c.spec_DEC(a);
    let (d1, u) = d.spec_DEC(b);
    lemma_CMP_alike(c1, d1, t, u);
}

#[allow(non_snake_case)]
pub proof fn lemma_ISC_alike(c: CPU, d: CPU, a: BusView, b: BusView)
    requires
        same_cpu(c, d),
        alike(a, b),
    ensures
        same_step(c.spec_ISC(a), d.spec_ISC(b)),
{
    lemma_INC_alike(c, d, a, b);
    let (c1, t) = c.spec_INC(a);
    let (d1, u) = d.spec_INC(b);
    lemma_SBC_alike(c1, d1, t, u);
}

/// The execution of the fetched instruction comes out the same.
#[verifier::rlimit(60)]
pub proof fn lemma_exec_instr_alike(c: CPU, d: CPU, a: BusView, b: BusView)
    requires
        same_cpu(c, d),
        alike(a, b),
    ensures
        same_step(c.spec_exec_instr(a), d.spec_exec_instr(b)),
{
    let c_start = CPU { cycles_instr: c.instr.cycles, ..c };
    let d_start = CPU { cycles_instr: d.instr.cycles, ..d };
    lemma_addressing_alike(c_start, d_start, a, b);
    let (c0, t) = c_start.spec_addressing(a);
    let (d0, u) = d_start.spec_addressing(b);
    let c1 = CPU { as_jump: false, ..c0 };
    let d1 = CPU { as_jump: false, ..d0 };
    match c.instr.instr {
        Instruction::ORA => {
            lemma_ORA_alike(c1, d1, t, u);
        },
        Instruction::AND => {
            lemma_AND_alike(c1, d1, t, u);
        },
        Instruction::BIT => {
            lemma_BIT_alike(c1, d1, t, u);
        },
        Instruction::EOR => {
            lemma_EOR_alike(c1, d1, t, u);
        },
        Instruction::ADC => {
            lemma_ADC_alike(c1, d1, t, u);
        },
        Instruction::SBC => {
            lemma_SBC_alike(c1, d1, t, u);
        },
        Instruction::CMP => {
            lemma_CMP_alike(c1, d1, t, u);
        },
        Instruction::CPX => {
            lemma_CPX_alike(c1, d1, t, u);
        },
        Instruction::CPY => {
            lemma_CPY_alike(c1, d1, t, u);
        },
        Instruction::DEC => {
            lemma_DEC_alike(c1, d1, t, u);
        },
        Instruction::DEX => {
            lemma_DEX_alike(c1, d1, t, u);
        },
        Instruction::DEY => {
            lemma_DEY_alike(c1, d1, t, u);
        },
        Instruction::INC => {
            lemma_INC_alike(c1, d1, t, u);
        },
        Instruction::INX => {
            lemma_INX_alike(c1, d1, t, u);
        },
        Instruction::INY => {
            lemma_INY_alike(c1, d1, t, u);
        },
        Instruction::ASL => {
            lemma_ASL_alike(c1, d1, t, u);
        },
        Instruction::ROL => {
            lemma_ROL_alike(c1, d1, t, u);
        },
        Instruction::LSR => {
            lemma_LSR_alike(c1, d1, t, u);
        },
        Instruction::ROR => {
            lemma_ROR_alike(c1, d1, t, u);
        },
        Instruction::LDA => {
            lemma_LDA_alike(c1, d1, t, u);
        },
        Instruction::LDX => {
            lemma_LDX_alike(c1, d1, t, u);
        },
        Instruction::LDY => {
            lemma_LDY_alike(c1, d1, t, u);
        },
        Instruction::STA => {
            lemma_STA_alike(c1, d1, t, u);
        },
        Instruction::STX => {
            lemma_STX_alike(c1, d1, t, u);
        },
        Instruction::STY => {
            lemma_STY_alike(c1, d1, t, u);
        },
        Instruction::TAX => {
            lemma_TAX_alike(c1, d1, t, u);
        },
        Instruction::TXA => {
            lemma_TXA_alike(c1, d1, t, u);
        },
        Instruction::TAY => {
            lemma_TAY_alike(c1, d1, t, u);
        },
        Instruction::TYA => {
            lemma_TYA_alike(c1, d1, t, u);
        },
        Instruction::TSX => {
            lemma_TSX_alike(c1, d1, t, u);
        },
        Instruction::TXS => {
            lemma_TXS_alike(c1, d1, t, u);
        },
        Instruction::PLA => {
            lemma_PLA_alike(c1, d1, t, u);
        },
        Instruction::PHA => {
            lemma_PHA_alike(c1, d1, t, u);
        },
        Instruction::PLP => {
            lemma_PLP_alike(c1, d1, t, u);
        },
        Instruction::PHP => {
            lemma_PHP_alike(c1, d1, t, u);
        },
        Instruction::BPL => {
            lemma_BPL_alike(c1, d1, t, u);
        },
        Instruction::BMI => {
            lemma_BMI_alike(c1, d1, t, u);
        },
        Instruction::BVC => {
            lemma_BVC_alike(c1, d1, t, u);
        },
        Instruction::BVS => {
            lemma_BVS_alike(c1, d1, t, u);
        },
        Instruction::BCC => {
            lemma_BCC_alike(c1, d1, t, u);
        },
        Instruction::BCS => {
            lemma_BCS_alike(c1, d1, t, u);
        },
        Instruction::BNE => {
            lemma_BNE_alike(c1, d1, t, u);
        },
        Instruction::BEQ => {
            lemma_BEQ_alike(c1, d1, t, u);
        },
        Instruction::JMP => {
            lemma_JMP_alike(c1, d1, t, u);
        },
        Instruction::JSR => {
            lemma_JSR_alike(c1, d1, t, u);
        },
        Instruction::RTS => {
            lemma_RTS_alike(c1, d1, t, u);
        },
        Instruction::RTI => {
            lemma_RTI_alike(c1, d1, t, u);
        },
        Instruction::BRK => {
            lemma_BRK_alike(c1, d1, t, u);
        },
        Instruction::CLC => {
            lemma_CLC_alike(c1, d1, t, u);
        },
        Instruction::SEC => {
            lemma_SEC_alike(c1, d1, t, u);
        },
        Instruction::CLD => {
            lemma_CLD_alike(c1, d1, t, u);
        },
        Instruction::SED => {
            lemma_SED_alike(c1, d1, t, u);
        },
        Instruction::CLI => {
            lemma_CLI_alike(c1, d1, t, u);
        },
        Instruction::SEI => {
            lemma_SEI_alike(c1, d1, t, u);
        },
        Instruction::CLV => {
            lemma_CLV_alike(c1, d1, t, u);
        },
        Instruction::SLO => {
            lemma_SLO_alike(c1, d1, t, u);
        },
        Instruction::RLA => {
            lemma_RLA_alike(c1, d1, t, u);
        },
        Instruction::SRE => {
            lemma_SRE_alike(c1, d1, t, u);
        },
        Instruction::RRA => {
            lemma_RRA_alike(c1, d1, t, u);
        },
        Instruction::SAX => {
            lemma_SAX_alike(c1, d1, t, u);
        },
        Instruction::LAX => {
            lemma_LAX_alike(c1, d1, t, u);
        },
        Instruction::DCP => {
            lemma_DCP_alike(c1, d1, t, u);
        },
        Instruction::ISC => {
            lemma_ISC_alike(c1, d1, t, u);
        },
        Instruction::ANC => {
            lemma_ANC_alike(c1, d1, t, u);
        },
        Instruction::ALR => {
            lemma_ALR_alike(c1, d1, t, u);
        },
        Instruction::ARR => {
            lemma_ARR_alike(c1, d1, t, u);
        },
        Instruction::NOP => {},
    }
}

/// An instruction, fetch and execution, comes out the same, with or
/// without a trace line.
pub proof fn lemma_next_instr_alike(c: CPU, d: CPU, a: BusView, b: BusView)
    requires
        same_cpu(c, d),
        alike(a, b),
    ensures
        same_step(c.spec_next_instr(a), d.spec_next_instr(b)),
        same_step(c.spec_debug_next_instr(a), d.spec_debug_next_instr(b)),
{
    reveal(CPU::spec_next_instr);
    reveal(CPU::spec_debug_next_instr);
    let c_start = CPU { cycles_instr: 0, ..c };
    let d_start = CPU { cycles_instr: 0, ..d };
    lemma_read_instr_alike(c_start, d_start, a, b);
    let (c1, t) = c_start.spec_read_instr(a);
    let (d1, u) = d_start.spec_read_instr(b);
    lemma_exec_instr_alike(c1, d1, t, u);
    lemma_exec_instr_alike(
        CPU { last_trace: CPU::trace_of(c, c1), traced: true, ..c1 },
        CPU { last_trace: CPU::trace_of(d, d1), traced: true, ..d1 },
        t,
        u,
    );
}

/// A cycle of the CPU comes out the same: the CPU cannot tell buses that
/// are alike apart, leaves them alike, and runs something on both or on
/// neither.
pub proof fn lemma_tick_alike(c: CPU, d: CPU, a: BusView, b: BusView)
    requires
        same_cpu(c, d),
        alike(a, b),
    ensures
        c.spec_tick(a).0 == d.spec_tick(b).0,
        same_cpu(c.spec_tick(a).1, d.spec_tick(b).1),
        alike(c.spec_tick(a).2, d.spec_tick(b).2),
        c.spec_tick(a).1.traced == d.spec_tick(b).1.traced,
{
    let c1 = CPU {
        cycles_since_last_exec: c.cycles_since_last_exec.wrapping_add(1),
        cycles_frame: c.cycles_frame.wrapping_add(1),
        traced: false,
        ..c
    };
    let d1 = CPU {
        cycles_since_last_exec: d.cycles_since_last_exec.wrapping_add(1),
        cycles_frame: d.cycles_frame.wrapping_add(1),
        traced: false,
        ..d
    };
    assert(same_cpu(c1, d1));
    lemma_interrupt_alike(
        c1,
        d1,
        BusView { ppu_mem: a.ppu_mem.nmi(), ..a },
        BusView { ppu_mem: b.ppu_mem.nmi(), ..b },
        crate::cpu::NMI_VECTOR,
    );
    lemma_dma_tick_alike(a, b);
    lemma_interrupt_alike(c1, d1, a, b, crate::cpu::IRQ_VECTOR);
    lemma_next_instr_alike(c1, d1, a, b);
}

} // verus!
