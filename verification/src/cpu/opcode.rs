//! The instruction set: for each of the 256 opcodes its mnemonic, its
//! addressing mode, its base cycle count and whether crossing a page
//! costs it one cycle more.
//!
//! The cycle counts are those of the customary timing table of the NMOS
//! 6502, unofficial opcodes included. Opcodes that neither the official
//! set nor the supported unofficial set defines are no-operations: those
//! that have an addressing mode of their own keep it, with its length
//! and timing, and the others take one operand byte and two cycles.

use vstd::prelude::*;

verus! {

#[derive(Debug, Clone, Copy, PartialEq, Eq, Structural)]
pub enum Instruction {
    ORA,
    AND,
    BIT,
    EOR,
    ADC,
    SBC,
    CMP,
    CPX,
    CPY,
    DEC,
    DEX,
    DEY,
    INC,
    INX,
    INY,
    ASL,
    ROL,
    LSR,
    ROR,
    LDA,
    LDX,
    LDY,
    STA,
    STX,
    STY,
    TAX,
    TXA,
    TAY,
    TYA,
    TSX,
    TXS,
    PLA,
    PHA,
    PLP,
    PHP,
    BPL,
    BMI,
    BVC,
    BVS,
    BCC,
    BCS,
    BNE,
    BEQ,
    JMP,
    JSR,
    RTS,
    RTI,
    BRK,
    CLC,
    SEC,
    CLD,
    SED,
    CLI,
    SEI,
    CLV,
    NOP,
    SLO,
    RLA,
    SRE,
    RRA,
    SAX,
    LAX,
    DCP,
    ISC,
    ANC,
    ALR,
    ARR,
}

#[derive(Debug, Clone, Copy, PartialEq, Eq, Structural)]
pub enum OpMode {
    /// No operand.
    IMP,
    /// The accumulator.
    ACC,
    /// The byte behind the opcode.
    IMM,
    /// A zero-page address.
    ZP0,
    /// A zero-page address plus X, within the zero page.
    ZPX,
    /// A zero-page address plus Y, within the zero page.
    ZPY,
    /// The address held at a zero-page address plus X.
    IZX,
    /// The address held at a zero-page address, plus Y.
    IZY,
    /// A 16-bit address.
    ABS,
    /// A 16-bit address plus X.
    ABX,
    /// A 16-bit address plus Y.
    ABY,
    /// The address held at a 16-bit address.
    IND,
    /// A signed offset from the next instruction.
    REL,
}

#[derive(Debug, Clone, Copy)]
pub struct InstructionInfo {
    pub opcode: u8,
    pub instr: Instruction,
    pub mode: OpMode,
    pub cycles: u32,
    /// Whether crossing a page costs one cycle more.
    pub cycle_inc_pbc: bool,
}

/// The mnemonic of an opcode.
pub open spec fn instr_of(opcode: u8) -> Instruction {
    match opcode {
        0x01 | 0x05 | 0x09 | 0x0D | 0x11 | 0x15 | 0x19 | 0x1D => Instruction::ORA,
        0x21 | 0x25 | 0x29 | 0x2D | 0x31 | 0x35 | 0x39 | 0x3D => Instruction::AND,
        0x24 | 0x2C => Instruction::BIT,
        0x41 | 0x45 | 0x49 | 0x4D | 0x51 | 0x55 | 0x59 | 0x5D => Instruction::EOR,
        0x61 | 0x65 | 0x69 | 0x6D | 0x71 | 0x75 | 0x79 | 0x7D => Instruction::ADC,
        0xE1 | 0xE5 | 0xE9 | 0xEB | 0xED | 0xF1 | 0xF5 | 0xF9 | 0xFD => Instruction::SBC,
        0xC1 | 0xC5 | 0xC9 | 0xCD | 0xD1 | 0xD5 | 0xD9 | 0xDD => Instruction::CMP,
        0xE0 | 0xE4 | 0xEC => Instruction::CPX,
        0xC0 | 0xC4 | 0xCC => Instruction::CPY,
        0xC6 | 0xCE | 0xD6 | 0xDE => Instruction::DEC,
        0xCA => Instruction::DEX,
        0x88 => Instruction::DEY,
        0xE6 | 0xEE | 0xF6 | 0xFE => Instruction::INC,
        0xE8 => Instruction::INX,
        0xC8 => Instruction::INY,
        0x06 | 0x0A | 0x0E | 0x16 | 0x1E => Instruction::ASL,
        0x26 | 0x2A | 0x2E | 0x36 | 0x3E => Instruction::ROL,
        0x46 | 0x4A | 0x4E | 0x56 | 0x5E => Instruction::LSR,
        0x66 | 0x6A | 0x6E | 0x76 | 0x7E => Instruction::ROR,
        0xA1 | 0xA5 | 0xA9 | 0xAD | 0xB1 | 0xB5 | 0xB9 | 0xBD => Instruction::LDA,
        0xA2 | 0xA6 | 0xAE | 0xB6 | 0xBE => Instruction::LDX,
        0xA0 | 0xA4 | 0xAC | 0xB4 | 0xBC => Instruction::LDY,
        0x81 | 0x85 | 0x8D | 0x91 | 0x95 | 0x99 | 0x9D => Instruction::STA,
        0x86 | 0x8E | 0x96 => Instruction::STX,
        0x84 | 0x8C | 0x94 => Instruction::STY,
        0xAA => Instruction::TAX,
        0x8A => Instruction::TXA,
        0xA8 => Instruction::TAY,
        0x98 => Instruction::TYA,
        0xBA => Instruction::TSX,
        0x9A => Instruction::TXS,
        0x68 => Instruction::PLA,
        0x48 => Instruction::PHA,
        0x28 => Instruction::PLP,
        0x08 => Instruction::PHP,
        0x10 => Instruction::BPL,
        0x30 => Instruction::BMI,
        0x50 => Instruction::BVC,
        0x70 => Instruction::BVS,
        0x90 => Instruction::BCC,
        0xB0 => Instruction::BCS,
        0xD0 => Instruction::BNE,
        0xF0 => Instruction::BEQ,
        0x4C | 0x6C => Instruction::JMP,
        0x20 => Instruction::JSR,
        0x60 => Instruction::RTS,
        0x40 => Instruction::RTI,
        0x00 => Instruction::BRK,
        0x18 => Instruction::CLC,
        0x38 => Instruction::SEC,
        0xD8 => Instruction::CLD,
        0xF8 => Instruction::SED,
        0x58 => Instruction::CLI,
        0x78 => Instruction::SEI,
        0xB8 => Instruction::CLV,
        0x03 | 0x07 | 0x0F | 0x13 | 0x17 | 0x1B | 0x1F => Instruction::SLO,
        0x23 | 0x27 | 0x2F | 0x33 | 0x37 | 0x3B | 0x3F => Instruction::RLA,
        0x43 | 0x47 | 0x4F | 0x53 | 0x57 | 0x5B | 0x5F => Instruction::SRE,
        0x63 | 0x67 | 0x6F | 0x73 | 0x77 | 0x7B | 0x7F => Instruction::RRA,
        0x83 | 0x87 | 0x8F | 0x97 => Instruction::SAX,
        0xA3 | 0xA7 | 0xAB | 0xAF | 0xB3 | 0xB7 | 0xBF => Instruction::LAX,
        0xC3 | 0xC7 | 0xCF | 0xD3 | 0xD7 | 0xDB | 0xDF => Instruction::DCP,
        0xE3 | 0xE7 | 0xEF | 0xF3 | 0xF7 | 0xFB | 0xFF => Instruction::ISC,
        0x0B | 0x2B => Instruction::ANC,
        0x4B => Instruction::ALR,
        0x6B => Instruction::ARR,
        _ => Instruction::NOP,
    }
}

/// The addressing mode of an opcode.
pub open spec fn mode_of(opcode: u8) -> OpMode {
    match opcode {
        0x0A | 0x2A | 0x4A | 0x6A => OpMode::ACC,
        0x02 | 0x09 | 0x0B | 0x12 | 0x22 | 0x29 | 0x2B | 0x32 | 0x42 | 0x49 | 0x4B | 0x52 | 0x62 | 0x69 | 0x6B | 0x72 | 0x80 | 0x82 | 0x89 | 0x8B | 0x92 | 0xA0 | 0xA2 | 0xA9 | 0xAB | 0xB2 | 0xC0 | 0xC2 | 0xC9 | 0xCB | 0xD2 | 0xE0 | 0xE2 | 0xE9 | 0xEB | 0xF2 => OpMode::IMM,
        0x04 | 0x05 | 0x06 | 0x07 | 0x24 | 0x25 | 0x26 | 0x27 | 0x44 | 0x45 | 0x46 | 0x47 | 0x64 | 0x65 | 0x66 | 0x67 | 0x84 | 0x85 | 0x86 | 0x87 | 0xA4 | 0xA5 | 0xA6 | 0xA7 | 0xC4 | 0xC5 | 0xC6 | 0xC7 | 0xE4 | 0xE5 | 0xE6 | 0xE7 => OpMode::ZP0,
        0x14 | 0x15 | 0x16 | 0x17 | 0x34 | 0x35 | 0x36 | 0x37 | 0x54 | 0x55 | 0x56 | 0x57 | 0x74 | 0x75 | 0x76 | 0x77 | 0x94 | 0x95 | 0xB4 | 0xB5 | 0xD4 | 0xD5 | 0xD6 | 0xD7 | 0xF4 | 0xF5 | 0xF6 | 0xF7 => OpMode::ZPX,
        0x96 | 0x97 | 0xB6 | 0xB7 => OpMode::ZPY,
        0x01 | 0x03 | 0x21 | 0x23 | 0x41 | 0x43 | 0x61 | 0x63 | 0x81 | 0x83 | 0xA1 | 0xA3 | 0xC1 | 0xC3 | 0xE1 | 0xE3 => OpMode::IZX,
        0x11 | 0x13 | 0x31 | 0x33 | 0x51 | 0x53 | 0x71 | 0x73 | 0x91 | 0x93 | 0xB1 | 0xB3 | 0xD1 | 0xD3 | 0xF1 | 0xF3 => OpMode::IZY,
        0x0C | 0x0D | 0x0E | 0x0F | 0x20 | 0x2C | 0x2D | 0x2E | 0x2F | 0x4C | 0x4D | 0x4E | 0x4F | 0x6D | 0x6E | 0x6F | 0x8C | 0x8D | 0x8E | 0x8F | 0xAC | 0xAD | 0xAE | 0xAF | 0xCC | 0xCD | 0xCE | 0xCF | 0xEC | 0xED | 0xEE | 0xEF => OpMode::ABS,
        0x1C | 0x1D | 0x1E | 0x1F | 0x3C | 0x3D | 0x3E | 0x3F | 0x5C | 0x5D | 0x5E | 0x5F | 0x7C | 0x7D | 0x7E | 0x7F | 0x9C | 0x9D | 0xBC | 0xBD | 0xDC | 0xDD | 0xDE | 0xDF | 0xFC | 0xFD | 0xFE | 0xFF => OpMode::ABX,
        0x19 | 0x1B | 0x39 | 0x3B | 0x59 | 0x5B | 0x79 | 0x7B | 0x99 | 0x9B | 0x9E | 0x9F | 0xB9 | 0xBB | 0xBE | 0xBF | 0xD9 | 0xDB | 0xF9 | 0xFB => OpMode::ABY,
        0x6C => OpMode::IND,
        0x10 | 0x30 | 0x50 | 0x70 | 0x90 | 0xB0 | 0xD0 | 0xF0 => OpMode::REL,
        _ => OpMode::IMP,
    }
}

/// The base cycle count of an opcode.
pub open spec fn cycles_of(opcode: u8) -> u32 {
    match opcode {
        0x04 | 0x05 | 0x08 | 0x24 | 0x25 | 0x44 | 0x45 | 0x48 | 0x4C | 0x64 | 0x65 | 0x84 | 0x85 | 0x86 | 0x87 | 0xA4 | 0xA5 | 0xA6 | 0xA7 | 0xC4 | 0xC5 | 0xE4 | 0xE5 => 3,
        0x0C | 0x0D | 0x14 | 0x15 | 0x19 | 0x1C | 0x1D | 0x28 | 0x2C | 0x2D | 0x34 | 0x35 | 0x39 | 0x3C | 0x3D | 0x4D | 0x54 | 0x55 | 0x59 | 0x5C | 0x5D | 0x68 | 0x6D | 0x74 | 0x75 | 0x79 | 0x7C | 0x7D | 0x8C | 0x8D | 0x8E | 0x8F | 0x94 | 0x95 | 0x96 | 0x97 | 0xAC | 0xAD | 0xAE | 0xAF | 0xB4 | 0xB5 | 0xB6 | 0xB7 | 0xB9 | 0xBB | 0xBC | 0xBD | 0xBE | 0xBF | 0xCC | 0xCD | 0xD4 | 0xD5 | 0xD9 | 0xDC | 0xDD | 0xEC | 0xED | 0xF4 | 0xF5 | 0xF9 | 0xFC | 0xFD => 4,
        0x06 | 0x07 | 0x11 | 0x26 | 0x27 | 0x31 | 0x46 | 0x47 | 0x51 | 0x66 | 0x67 | 0x6C | 0x71 | 0x99 | 0x9B | 0x9C | 0x9D | 0x9E | 0x9F | 0xB1 | 0xB3 | 0xC6 | 0xC7 | 0xD1 | 0xE6 | 0xE7 | 0xF1 => 5,
        0x01 | 0x0E | 0x0F | 0x16 | 0x17 | 0x20 | 0x21 | 0x2E | 0x2F | 0x36 | 0x37 | 0x40 | 0x41 | 0x4E | 0x4F | 0x56 | 0x57 | 0x60 | 0x61 | 0x6E | 0x6F | 0x76 | 0x77 | 0x81 | 0x83 | 0x91 | 0x93 | 0xA1 | 0xA3 | 0xC1 | 0xCE | 0xCF | 0xD6 | 0xD7 | 0xE1 | 0xEE | 0xEF | 0xF6 | 0xF7 => 6,
        0x00 | 0x1B | 0x1E | 0x1F | 0x3B | 0x3E | 0x3F | 0x5B | 0x5E | 0x5F | 0x7B | 0x7E | 0x7F | 0xDB | 0xDE | 0xDF | 0xFB | 0xFE | 0xFF => 7,
        0x03 | 0x13 | 0x23 | 0x33 | 0x43 | 0x53 | 0x63 | 0x73 | 0xC3 | 0xD3 | 0xE3 | 0xF3 => 8,
        _ => 2,
    }
}

/// Whether crossing a page costs an opcode one cycle more.
pub open spec fn page_penalty_of(opcode: u8) -> bool {
    match opcode {
        0x10 | 0x11 | 0x19 | 0x1C | 0x1D | 0x30 | 0x31 | 0x39 | 0x3C | 0x3D | 0x50 | 0x51 | 0x59 | 0x5C | 0x5D | 0x70 | 0x71 | 0x79 | 0x7C | 0x7D | 0x90 | 0xB0 | 0xB1 | 0xB3 | 0xB9 | 0xBB | 0xBC | 0xBD | 0xBE | 0xBF | 0xD0 | 0xD1 | 0xD9 | 0xDC | 0xDD | 0xF0 | 0xF1 | 0xF9 | 0xFC | 0xFD => true,
        _ => false,
    }
}

/// The descriptor of an opcode.
pub open spec fn decode(opcode: u8) -> InstructionInfo {
    InstructionInfo {
        opcode,
        instr: instr_of(opcode),
        mode: mode_of(opcode),
        cycles: cycles_of(opcode),
        cycle_inc_pbc: page_penalty_of(opcode),
    }
}

/// No opcode has a base count above 8.
pub proof fn lemma_cycles_bound(opcode: u8)
    ensures
        2 <= cycles_of(opcode) <= 8,
        decode(opcode).cycles == cycles_of(opcode),
{
}

/// The number of operand bytes that an addressing mode takes.
pub open spec fn operand_len(mode: OpMode) -> u16 {
    match mode {
        OpMode::IMP | OpMode::ACC => 0,
        OpMode::ABS | OpMode::ABX | OpMode::ABY | OpMode::IND => 2,
        _ => 1,
    }
}

impl InstructionInfo {
    /// The descriptor of the official no-operation, opcode 0xEA.
    pub fn new() -> (r: Self)
        ensures
            r == decode(0xEA),
    {
        opcode_to_enum(0xEA)
    }
}

fn instr_for(opcode: u8) -> (r: Instruction)
    ensures
        r == instr_of(opcode),
{
    match opcode {
        0x01 | 0x05 | 0x09 | 0x0D | 0x11 | 0x15 | 0x19 | 0x1D => Instruction::ORA,
        0x21 | 0x25 | 0x29 | 0x2D | 0x31 | 0x35 | 0x39 | 0x3D => Instruction::AND,
        0x24 | 0x2C => Instruction::BIT,
        0x41 | 0x45 | 0x49 | 0x4D | 0x51 | 0x55 | 0x59 | 0x5D => Instruction::EOR,
        0x61 | 0x65 | 0x69 | 0x6D | 0x71 | 0x75 | 0x79 | 0x7D => Instruction::ADC,
        0xE1 | 0xE5 | 0xE9 | 0xEB | 0xED | 0xF1 | 0xF5 | 0xF9 | 0xFD => Instruction::SBC,
        0xC1 | 0xC5 | 0xC9 | 0xCD | 0xD1 | 0xD5 | 0xD9 | 0xDD => Instruction::CMP,
        0xE0 | 0xE4 | 0xEC => Instruction::CPX,
        0xC0 | 0xC4 | 0xCC => Instruction::CPY,
        0xC6 | 0xCE | 0xD6 | 0xDE => Instruction::DEC,
        0xCA => Instruction::DEX,
        0x88 => Instruction::DEY,
        0xE6 | 0xEE | 0xF6 | 0xFE => Instruction::INC,
        0xE8 => Instruction::INX,
        0xC8 => Instruction::INY,
        0x06 | 0x0A | 0x0E | 0x16 | 0x1E => Instruction::ASL,
        0x26 | 0x2A | 0x2E | 0x36 | 0x3E => Instruction::ROL,
        0x46 | 0x4A | 0x4E | 0x56 | 0x5E => Instruction::LSR,
        0x66 | 0x6A | 0x6E | 0x76 | 0x7E => Instruction::ROR,
        0xA1 | 0xA5 | 0xA9 | 0xAD | 0xB1 | 0xB5 | 0xB9 | 0xBD => Instruction::LDA,
        0xA2 | 0xA6 | 0xAE | 0xB6 | 0xBE => Instruction::LDX,
        0xA0 | 0xA4 | 0xAC | 0xB4 | 0xBC => Instruction::LDY,
        0x81 | 0x85 | 0x8D | 0x91 | 0x95 | 0x99 | 0x9D => Instruction::STA,
        0x86 | 0x8E | 0x96 => Instruction::STX,
        0x84 | 0x8C | 0x94 => Instruction::STY,
        0xAA => Instruction::TAX,
        0x8A => Instruction::TXA,
        0xA8 => Instruction::TAY,
        0x98 => Instruction::TYA,
        0xBA => Instruction::TSX,
        0x9A => Instruction::TXS,
        0x68 => Instruction::PLA,
        0x48 => Instruction::PHA,
        0x28 => Instruction::PLP,
        0x08 => Instruction::PHP,
        0x10 => Instruction::BPL,
        0x30 => Instruction::BMI,
        0x50 => Instruction::BVC,
        0x70 => Instruction::BVS,
        0x90 => Instruction::BCC,
        0xB0 => Instruction::BCS,
        0xD0 => Instruction::BNE,
        0xF0 => Instruction::BEQ,
        0x4C | 0x6C => Instruction::JMP,
        0x20 => Instruction::JSR,
        0x60 => Instruction::RTS,
        0x40 => Instruction::RTI,
        0x00 => Instruction::BRK,
        0x18 => Instruction::CLC,
        0x38 => Instruction::SEC,
        0xD8 => Instruction::CLD,
        0xF8 => Instruction::SED,
        0x58 => Instruction::CLI,
        0x78 => Instruction::SEI,
        0xB8 => Instruction::CLV,
        0x03 | 0x07 | 0x0F | 0x13 | 0x17 | 0x1B | 0x1F => Instruction::SLO,
        0x23 | 0x27 | 0x2F | 0x33 | 0x37 | 0x3B | 0x3F => Instruction::RLA,
        0x43 | 0x47 | 0x4F | 0x53 | 0x57 | 0x5B | 0x5F => Instruction::SRE,
        0x63 | 0x67 | 0x6F | 0x73 | 0x77 | 0x7B | 0x7F => Instruction::RRA,
        0x83 | 0x87 | 0x8F | 0x97 => Instruction::SAX,
        0xA3 | 0xA7 | 0xAB | 0xAF | 0xB3 | 0xB7 | 0xBF => Instruction::LAX,
        0xC3 | 0xC7 | 0xCF | 0xD3 | 0xD7 | 0xDB | 0xDF => Instruction::DCP,
        0xE3 | 0xE7 | 0xEF | 0xF3 | 0xF7 | 0xFB | 0xFF => Instruction::ISC,
        0x0B | 0x2B => Instruction::ANC,
        0x4B => Instruction::ALR,
        0x6B => Instruction::ARR,
        _ => Instruction::NOP,
    }
}

fn mode_for(opcode: u8) -> (r: OpMode)
    ensures
        r == mode_of(opcode),
{
    match opcode {
        0x0A | 0x2A | 0x4A | 0x6A => OpMode::ACC,
        0x02 | 0x09 | 0x0B | 0x12 | 0x22 | 0x29 | 0x2B | 0x32 | 0x42 | 0x49 | 0x4B | 0x52 | 0x62 | 0x69 | 0x6B | 0x72 | 0x80 | 0x82 | 0x89 | 0x8B | 0x92 | 0xA0 | 0xA2 | 0xA9 | 0xAB | 0xB2 | 0xC0 | 0xC2 | 0xC9 | 0xCB | 0xD2 | 0xE0 | 0xE2 | 0xE9 | 0xEB | 0xF2 => OpMode::IMM,
        0x04 | 0x05 | 0x06 | 0x07 | 0x24 | 0x25 | 0x26 | 0x27 | 0x44 | 0x45 | 0x46 | 0x47 | 0x64 | 0x65 | 0x66 | 0x67 | 0x84 | 0x85 | 0x86 | 0x87 | 0xA4 | 0xA5 | 0xA6 | 0xA7 | 0xC4 | 0xC5 | 0xC6 | 0xC7 | 0xE4 | 0xE5 | 0xE6 | 0xE7 => OpMode::ZP0,
        0x14 | 0x15 | 0x16 | 0x17 | 0x34 | 0x35 | 0x36 | 0x37 | 0x54 | 0x55 | 0x56 | 0x57 | 0x74 | 0x75 | 0x76 | 0x77 | 0x94 | 0x95 | 0xB4 | 0xB5 | 0xD4 | 0xD5 | 0xD6 | 0xD7 | 0xF4 | 0xF5 | 0xF6 | 0xF7 => OpMode::ZPX,
        0x96 | 0x97 | 0xB6 | 0xB7 => OpMode::ZPY,
        0x01 | 0x03 | 0x21 | 0x23 | 0x41 | 0x43 | 0x61 | 0x63 | 0x81 | 0x83 | 0xA1 | 0xA3 | 0xC1 | 0xC3 | 0xE1 | 0xE3 => OpMode::IZX,
        0x11 | 0x13 | 0x31 | 0x33 | 0x51 | 0x53 | 0x71 | 0x73 | 0x91 | 0x93 | 0xB1 | 0xB3 | 0xD1 | 0xD3 | 0xF1 | 0xF3 => OpMode::IZY,
        0x0C | 0x0D | 0x0E | 0x0F | 0x20 | 0x2C | 0x2D | 0x2E | 0x2F | 0x4C | 0x4D | 0x4E | 0x4F | 0x6D | 0x6E | 0x6F | 0x8C | 0x8D | 0x8E | 0x8F | 0xAC | 0xAD | 0xAE | 0xAF | 0xCC | 0xCD | 0xCE | 0xCF | 0xEC | 0xED | 0xEE | 0xEF => OpMode::ABS,
        0x1C | 0x1D | 0x1E | 0x1F | 0x3C | 0x3D | 0x3E | 0x3F | 0x5C | 0x5D | 0x5E | 0x5F | 0x7C | 0x7D | 0x7E | 0x7F | 0x9C | 0x9D | 0xBC | 0xBD | 0xDC | 0xDD | 0xDE | 0xDF | 0xFC | 0xFD | 0xFE | 0xFF => OpMode::ABX,
        0x19 | 0x1B | 0x39 | 0x3B | 0x59 | 0x5B | 0x79 | 0x7B | 0x99 | 0x9B | 0x9E | 0x9F | 0xB9 | 0xBB | 0xBE | 0xBF | 0xD9 | 0xDB | 0xF9 | 0xFB => OpMode::ABY,
        0x6C => OpMode::IND,
        0x10 | 0x30 | 0x50 | 0x70 | 0x90 | 0xB0 | 0xD0 | 0xF0 => OpMode::REL,
        _ => OpMode::IMP,
    }
}

fn cycles_for(opcode: u8) -> (r: u32)
    ensures
        r == cycles_of(opcode),
{
    match opcode {
        0x04 | 0x05 | 0x08 | 0x24 | 0x25 | 0x44 | 0x45 | 0x48 | 0x4C | 0x64 | 0x65 | 0x84 | 0x85 | 0x86 | 0x87 | 0xA4 | 0xA5 | 0xA6 | 0xA7 | 0xC4 | 0xC5 | 0xE4 | 0xE5 => 3,
        0x0C | 0x0D | 0x14 | 0x15 | 0x19 | 0x1C | 0x1D | 0x28 | 0x2C | 0x2D | 0x34 | 0x35 | 0x39 | 0x3C | 0x3D | 0x4D | 0x54 | 0x55 | 0x59 | 0x5C | 0x5D | 0x68 | 0x6D | 0x74 | 0x75 | 0x79 | 0x7C | 0x7D | 0x8C | 0x8D | 0x8E | 0x8F | 0x94 | 0x95 | 0x96 | 0x97 | 0xAC | 0xAD | 0xAE | 0xAF | 0xB4 | 0xB5 | 0xB6 | 0xB7 | 0xB9 | 0xBB | 0xBC | 0xBD | 0xBE | 0xBF | 0xCC | 0xCD | 0xD4 | 0xD5 | 0xD9 | 0xDC | 0xDD | 0xEC | 0xED | 0xF4 | 0xF5 | 0xF9 | 0xFC | 0xFD => 4,
        0x06 | 0x07 | 0x11 | 0x26 | 0x27 | 0x31 | 0x46 | 0x47 | 0x51 | 0x66 | 0x67 | 0x6C | 0x71 | 0x99 | 0x9B | 0x9C | 0x9D | 0x9E | 0x9F | 0xB1 | 0xB3 | 0xC6 | 0xC7 | 0xD1 | 0xE6 | 0xE7 | 0xF1 => 5,
        0x01 | 0x0E | 0x0F | 0x16 | 0x17 | 0x20 | 0x21 | 0x2E | 0x2F | 0x36 | 0x37 | 0x40 | 0x41 | 0x4E | 0x4F | 0x56 | 0x57 | 0x60 | 0x61 | 0x6E | 0x6F | 0x76 | 0x77 | 0x81 | 0x83 | 0x91 | 0x93 | 0xA1 | 0xA3 | 0xC1 | 0xCE | 0xCF | 0xD6 | 0xD7 | 0xE1 | 0xEE | 0xEF | 0xF6 | 0xF7 => 6,
        0x00 | 0x1B | 0x1E | 0x1F | 0x3B | 0x3E | 0x3F | 0x5B | 0x5E | 0x5F | 0x7B | 0x7E | 0x7F | 0xDB | 0xDE | 0xDF | 0xFB | 0xFE | 0xFF => 7,
        0x03 | 0x13 | 0x23 | 0x33 | 0x43 | 0x53 | 0x63 | 0x73 | 0xC3 | 0xD3 | 0xE3 | 0xF3 => 8,
        _ => 2,
    }
}

fn page_penalty_for(opcode: u8) -> (r: bool)
    ensures
        r == page_penalty_of(opcode),
{
    match opcode {
        0x10 | 0x11 | 0x19 | 0x1C | 0x1D | 0x30 | 0x31 | 0x39 | 0x3C | 0x3D | 0x50 | 0x51 | 0x59 | 0x5C | 0x5D | 0x70 | 0x71 | 0x79 | 0x7C | 0x7D | 0x90 | 0xB0 | 0xB1 | 0xB3 | 0xB9 | 0xBB | 0xBC | 0xBD | 0xBE | 0xBF | 0xD0 | 0xD1 | 0xD9 | 0xDC | 0xDD | 0xF0 | 0xF1 | 0xF9 | 0xFC | 0xFD => true,
        _ => false,
    }
}

/// Decodes an opcode.
pub fn opcode_to_enum(opcode: u8) -> (r: InstructionInfo)
    ensures
        r == decode(opcode),
{
    InstructionInfo {
        opcode,
        instr: instr_for(opcode),
        mode: mode_for(opcode),
        cycles: cycles_for(opcode),
        cycle_inc_pbc: page_penalty_for(opcode),
    }
}

} // verus!
