//! The CPU: a 6502 without decimal arithmetic. It runs one instruction at
//! a time and then idles for the cycles that the instruction takes.

pub mod alike;
pub mod alu;
pub mod exec;
pub mod opcode;

use vstd::prelude::*;
use crate::bus::{Bus, BusView};
use crate::mapper::Mapper;
use crate::memory::{MemRead, MemWrite};
use alu::{StatusReg, FLAG_I};
use opcode::{decode, opcode_to_enum, operand_len, InstructionInfo, OpMode};

verus! {

/// The page of the stack.
pub const STACK_ADDR: u16 = 0x0100;

pub const NMI_VECTOR: usize = 0xFFFA;

pub const RESET_VECTOR: usize = 0xFFFC;

pub const IRQ_VECTOR: usize = 0xFFFE;

/// The cycles that the dispatch of an interrupt takes.
pub const INTERRUPT_CYCLES: u32 = 7;

/// Where a debug reset starts the program: the entry of the customary CPU
/// test cartridge.
pub const DEBUG_ENTRY: u16 = 0xC000;

/// The largest cycle budget that an instruction can reach: its base count
/// and its penalties.
pub const MAX_INSTR_CYCLES: u32 = 16;

#[allow(non_snake_case)]
#[derive(Debug, Clone, Copy)]
pub struct Reg {
    pub A: u8,
    pub X: u8,
    pub Y: u8,
    pub PC: u16,
    pub S: u8,
    pub P: StatusReg,
}

impl Reg {
    /// The registers of a CPU that has not been reset yet.
    pub open spec fn power_on() -> Reg {
        Reg { A: 0, X: 0, Y: 0, PC: 0, S: 0, P: StatusReg { value: 0x24 } }
    }

    /// The registers after a reset, before the reset vector is read.
    pub open spec fn after_reset() -> Reg {
        Reg { A: 0, X: 0, Y: 0, PC: 0, S: 0xFD, P: StatusReg { value: 0x24 } }
    }

    pub fn new() -> (r: Self)
        ensures
            r == Self::power_on(),
    {
        Self { A: 0x0, X: 0x0, Y: 0x0, PC: 0x0, S: 0x0, P: StatusReg::new() }
    }

    pub fn reset(&mut self)
        ensures
            *final(self) == Self::after_reset(),
    {
        self.A = 0x0;
        self.X = 0x0;
        self.Y = 0x0;
        self.PC = 0x0;
        self.S = 0xFD;
        self.P.reset();
    }
}

/// One line of the instruction trace: the instruction that was fetched
/// and the registers before it ran.
#[derive(Debug, Clone, Copy)]
pub struct TraceEntry {
    pub pc: u16,
    pub opcode: u8,
    pub op_len: u16,
    pub operand: (u8, u8),
    pub a: u8,
    pub x: u8,
    pub y: u8,
    pub p: u8,
    pub s: u8,
    pub cycles_frame: u32,
}

#[derive(Debug, Clone, Copy)]
pub struct CPU {
    pub reg: Reg,
    /// Cycles since the last reset of the count.
    pub cycles_frame: u32,
    /// The cycle budget of what was run last.
    pub cycles_instr: u32,
    pub cycles_since_last_exec: u32,
    pub operand: (u8, u8),
    pub addr_abs: u16,
    pub addr_rel: i8,
    pub instr: InstructionInfo,
    pub op_len: u16,
    /// Whether the last instruction changed the program counter.
    pub as_jump: bool,
    /// Whether the operand of the running instruction has been fetched.
    pub instr_op_load: bool,
    pub debug: bool,
    /// The trace line of the last instruction that ran under `debug`.
    pub last_trace: TraceEntry,
    /// Whether the last tick left a new trace line.
    pub traced: bool,
}

/// What the first DMA byte costs beyond the two cycles that every byte
/// costs: one idle cycle, and one more to align when the cycle count is
/// odd.
pub open spec fn dma_start_cycles(cycles_frame: u32) -> u32 {
    if cycles_frame % 2 == 1 {
        2
    } else {
        1
    }
}

/// The cycle budget of the DMA byte with index `index`.
pub open spec fn dma_byte_cycles(index: u8, cycles_frame: u32) -> u32 {
    if index == 0 {
        (2 + dma_start_cycles(cycles_frame)) as u32
    } else {
        2
    }
}

#[allow(non_snake_case)]
impl CPU {
    /// A CPU that has not been reset yet.
    pub open spec fn power_on() -> CPU {
        CPU {
            reg: Reg::power_on(),
            cycles_frame: 0,
            cycles_instr: 0,
            cycles_since_last_exec: 0,
            operand: (0, 0),
            addr_abs: 0,
            addr_rel: 0,
            instr: decode(0xEA),
            op_len: 0,
            as_jump: false,
            instr_op_load: false,
            debug: false,
            last_trace: TraceEntry {
                pc: 0,
                opcode: 0,
                op_len: 0,
                operand: (0, 0),
                a: 0,
                x: 0,
                y: 0,
                p: 0,
                s: 0,
                cycles_frame: 0,
            },
            traced: false,
        }
    }

    pub open spec fn set_a(self, a: u8) -> CPU {
        CPU { reg: Reg { A: a, ..self.reg }, ..self }
    }

    pub open spec fn set_x(self, x: u8) -> CPU {
        CPU { reg: Reg { X: x, ..self.reg }, ..self }
    }

    pub open spec fn set_y(self, y: u8) -> CPU {
        CPU { reg: Reg { Y: y, ..self.reg }, ..self }
    }

    pub open spec fn set_s(self, s: u8) -> CPU {
        CPU { reg: Reg { S: s, ..self.reg }, ..self }
    }

    pub open spec fn set_pc(self, pc: u16) -> CPU {
        CPU { reg: Reg { PC: pc, ..self.reg }, ..self }
    }

    pub open spec fn set_p(self, p: StatusReg) -> CPU {
        CPU { reg: Reg { P: p, ..self.reg }, ..self }
    }

    pub open spec fn set_op0(self, v: u8) -> CPU {
        CPU { operand: (v, self.operand.1), ..self }
    }

    /// The CPU with `n` cycles more in the budget of the instruction.
    pub open spec fn add_cycles(self, n: u32) -> CPU {
        CPU { cycles_instr: (self.cycles_instr + n) as u32, ..self }
    }

    /// The address of the top of the stack.
    pub open spec fn stack_top(self) -> usize {
        (STACK_ADDR + self.reg.S) as usize
    }

    /// A push: the byte goes to the top of the stack, then S steps down,
    /// within its 8 bits.
    pub open spec fn spec_push(self, bus: BusView, value: u8) -> (CPU, BusView) {
        (self.set_s(self.reg.S.wrapping_sub(1)), bus.write(self.stack_top(), value))
    }

    /// A pull: S steps up, within its 8 bits, then the byte at the top of
    /// the stack is read.
    pub open spec fn spec_pull(self, bus: BusView) -> (u8, CPU, BusView) {
        let c = self.set_s(self.reg.S.wrapping_add(1));
        let (v, b) = bus.read(c.stack_top());
        (v, c, b)
    }

    /// The 16-bit value at `addr`, low byte first.
    pub open spec fn spec_read16(bus: BusView, addr: usize) -> (u16, BusView) {
        let (lo, b1) = bus.read(addr);
        let (hi, b2) = b1.read((addr + 1) as usize);
        (((hi as u16) << 8) | (lo as u16), b2)
    }

    /// The CPU after a reset: registers reset, counters started, the
    /// program counter read from the reset vector, and the two top bytes of
    /// the zero page set to 0xFF.
    pub open spec fn spec_reset(self, bus: BusView) -> (CPU, BusView) {
        let (pc, b) = Self::spec_read16(bus, RESET_VECTOR);
        (
            CPU {
                reg: Reg { PC: pc, ..Reg::after_reset() },
                cycles_frame: 0,
                cycles_instr: 2,
                cycles_since_last_exec: 0,
                ..self
            },
            b.write(0xFE, 0xFF).write(0xFF, 0xFF),
        )
    }

    /// The CPU after a debug reset: as after a reset, but the program
    /// starts at `DEBUG_ENTRY` after seven cycles.
    pub open spec fn spec_debug_reset(self, bus: BusView) -> (CPU, BusView) {
        let (c, b) = self.spec_reset(bus);
        (CPU { cycles_instr: 7, ..c.set_pc(DEBUG_ENTRY) }, b)
    }

    /// The fetch of an instruction: the opcode at the program counter is
    /// decoded, its operand bytes are read, and the program counter moves
    /// behind them.
    pub open spec fn spec_read_instr(self, bus: BusView) -> (CPU, BusView) {
        let (opcode, b0) = bus.read(self.reg.PC as usize);
        let instr = decode(opcode);
        let op_len = operand_len(instr.mode);
        let (op0, b1) = if op_len >= 1 {
            b0.read(self.reg.PC.wrapping_add(1) as usize)
        } else {
            (self.operand.0, b0)
        };
        let (op1, b2) = if op_len == 2 {
            b1.read(self.reg.PC.wrapping_add(2) as usize)
        } else {
            (self.operand.1, b1)
        };
        (
            CPU { instr, op_len, operand: (op0, op1), ..self }.set_pc(
                self.reg.PC.wrapping_add((op_len + 1) as u16),
            ),
            b2,
        )
    }

    /// One instruction: fetch, then execution.
    #[verifier::opaque]
    pub open spec fn spec_next_instr(self, bus: BusView) -> (CPU, BusView) {
        let (c, b) = (CPU { cycles_instr: 0, ..self }).spec_read_instr(bus);
        c.spec_exec_instr(b)
    }

    /// The trace line of the instruction that was just fetched, given the
    /// CPU before the fetch.
    pub open spec fn trace_of(before: CPU, fetched: CPU) -> TraceEntry {
        TraceEntry {
            pc: before.reg.PC,
            opcode: fetched.instr.opcode,
            op_len: fetched.op_len,
            operand: fetched.operand,
            a: before.reg.A,
            x: before.reg.X,
            y: before.reg.Y,
            p: before.reg.P.value,
            s: before.reg.S,
            cycles_frame: before.cycles_frame,
        }
    }

    /// One instruction with its trace line left in `last_trace`.
    #[verifier::opaque]
    pub open spec fn spec_debug_next_instr(self, bus: BusView) -> (CPU, BusView) {
        let (c, b) = (CPU { cycles_instr: 0, ..self }).spec_read_instr(bus);
        (CPU { last_trace: Self::trace_of(self, c), traced: true, ..c }).spec_exec_instr(b)
    }

    /// The dispatch of an interrupt: the program counter and the status
    /// (pushed as by an interrupt, bit 5 alone) go on the stack, I is set,
    /// and the program counter is read from the vector.
    #[verifier::opaque]
    pub open spec fn spec_interrupt(self, bus: BusView, vector: usize) -> (CPU, BusView) {
        let (c1, b1) = self.spec_push(bus, (self.reg.PC >> 8) as u8);
        let (c2, b2) = c1.spec_push(b1, (self.reg.PC & 0xFF) as u8);
        let (c3, b3) = c2.spec_push(b2, self.reg.P.pushed(2));
        let (pc, b4) = Self::spec_read16(b3, vector);
        (c3.set_p(c3.reg.P.with_flag(FLAG_I, true)).set_pc(pc), b4)
    }

    /// One CPU cycle: whether something was run in it, and the CPU and
    /// the bus after it.
    ///
    /// The cycle is counted. Nothing more happens until the budget of what
    /// ran last is used up. Then, in this order of precedence: a waiting
    /// interrupt request of the picture unit is answered and dispatched
    /// through the NMI vector; one byte of a sprite DMA under way is
    /// copied; an interrupt request of the cartridge is dispatched through
    /// the IRQ vector unless I is set; the next instruction runs.
    pub open spec fn spec_tick(self, bus: BusView) -> (bool, CPU, BusView) {
        let c = CPU {
            cycles_since_last_exec: self.cycles_since_last_exec.wrapping_add(1),
            cycles_frame: self.cycles_frame.wrapping_add(1),
            traced: false,
            ..self
        };
        if c.cycles_since_last_exec >= c.cycles_instr {
            if bus.ppu_mem.nmi_pending && bus.ppu_mem.nmi_output {
                let (c1, b1) = c.spec_interrupt(
                    BusView { ppu_mem: bus.ppu_mem.nmi(), ..bus },
                    NMI_VECTOR,
                );
                (true, CPU { cycles_instr: INTERRUPT_CYCLES, cycles_since_last_exec: 0, ..c1 }, b1)
            } else if bus.oam_dma.0 {
                let (_active, b1) = bus.oam_dma_tick();
                (
                    true,
                    CPU {
                        cycles_instr: dma_byte_cycles(bus.oam_dma.2, c.cycles_frame),
                        cycles_since_last_exec: 0,
                        ..c
                    },
                    b1,
                )
            } else if bus.mapper.irq_pending() && !c.reg.P.flag(FLAG_I) {
                let (c1, b1) = c.spec_interrupt(bus, IRQ_VECTOR);
                (true, CPU { cycles_instr: INTERRUPT_CYCLES, cycles_since_last_exec: 0, ..c1 }, b1)
            } else {
                let (c1, b1) = if c.debug {
                    c.spec_debug_next_instr(bus)
                } else {
                    c.spec_next_instr(bus)
                };
                (true, CPU { cycles_since_last_exec: 0, ..c1 }, b1)
            }
        } else {
            (false, c, bus)
        }
    }

    pub fn new() -> (r: Self)
        ensures
            r == Self::power_on(),
    {
        Self {
            reg: Reg::new(),
            cycles_frame: 0,
            cycles_instr: 0,
            cycles_since_last_exec: 0,
            operand: (0, 0),
            addr_abs: 0,
            addr_rel: 0,
            instr: InstructionInfo::new(),
            op_len: 0,
            as_jump: false,
            instr_op_load: false,
            debug: false,
            last_trace: TraceEntry {
                pc: 0,
                opcode: 0,
                op_len: 0,
                operand: (0, 0),
                a: 0,
                x: 0,
                y: 0,
                p: 0,
                s: 0,
                cycles_frame: 0,
            },
            traced: false,
        }
    }

    pub fn reset_cycles_frame(&mut self)
        ensures
            *final(self) == (CPU { cycles_frame: 0, ..*old(self) }),
    {
        self.cycles_frame = 0;
    }

    pub fn get_cycles_frame(&self) -> (r: u32)
        ensures
            r == self.cycles_frame,
    {
        self.cycles_frame
    }

    pub fn set_debug(&mut self, debug: bool)
        ensures
            *final(self) == (CPU { debug, ..*old(self) }),
    {
        self.debug = debug;
    }

    /// The registers, for a snapshot.
    pub fn save_reg_state(&self) -> (r: Reg)
        ensures
            r == self.reg,
    {
        self.reg
    }

    /// Puts the registers of a snapshot back.
    pub fn load_reg_state(&mut self, reg: &Reg)
        ensures
            *final(self) == (CPU { reg: *reg, ..*old(self) }),
    {
        self.reg = *reg;
    }

    pub(crate) fn read16(bus: &mut Bus, addr: usize) -> (r: u16)
        requires
            addr < usize::MAX,
        ensures
            (r, final(bus)@) == Self::spec_read16(old(bus)@, addr),
    {
        let lo: u8 = bus.read(addr);
        let hi: u8 = bus.read(addr + 1);
        ((hi as u16) << 8) | (lo as u16)
    }

    pub(crate) fn push(&mut self, bus: &mut Bus, value: u8)
        ensures
            (*final(self), final(bus)@) == old(self).spec_push(old(bus)@, value),
    {
        let addr: u16 = STACK_ADDR + self.reg.S as u16;
        bus.write(addr as usize, value);
        self.reg.S = self.reg.S.wrapping_sub(1);
    }

    pub(crate) fn pull(&mut self, bus: &mut Bus) -> (value: u8)
        ensures
            (value, *final(self), final(bus)@) == old(self).spec_pull(old(bus)@),
    {
        self.reg.S = self.reg.S.wrapping_add(1);
        let addr: u16 = STACK_ADDR + self.reg.S as u16;
        bus.read(addr as usize)
    }

    pub fn reset(&mut self, bus: &mut Bus)
        ensures
            (*final(self), final(bus)@) == old(self).spec_reset(old(bus)@),
    {
        self.reg.reset();
        self.cycles_frame = 0;
        self.cycles_instr = 2;
        self.cycles_since_last_exec = 0;
        self.reg.PC = Self::read16(bus, RESET_VECTOR);
        bus.write(0xFE, 0xFF);
        bus.write(0xFF, 0xFF);
    }

    pub fn debug_reset(&mut self, bus: &mut Bus)
        ensures
            (*final(self), final(bus)@) == old(self).spec_debug_reset(old(bus)@),
    {
        self.reset(bus);
        self.cycles_instr = 7;
        self.reg.PC = DEBUG_ENTRY;
    }

    pub(crate) fn read_instr(&mut self, bus: &mut Bus)
        ensures
            (*final(self), final(bus)@) == old(self).spec_read_instr(old(bus)@),
    {
        let opcode: u8 = bus.read(self.reg.PC as usize);
        self.instr = opcode_to_enum(opcode);
        self.op_len = operand_lenght(&self.instr);
        if self.op_len >= 1 {
            self.operand.0 = bus.read(self.reg.PC.wrapping_add(1) as usize);
        }
        if self.op_len == 2 {
            self.operand.1 = bus.read(self.reg.PC.wrapping_add(2) as usize);
        }
        self.reg.PC = self.reg.PC.wrapping_add(self.op_len + 1);
    }

    /// Runs the next instruction.
    pub fn next_instr(&mut self, bus: &mut Bus)
        ensures
            (*final(self), final(bus)@) == old(self).spec_next_instr(old(bus)@),
    {
        self.cycles_instr = 0;
        self.read_instr(bus);
        proof {
            reveal(CPU::spec_next_instr);
            opcode::lemma_cycles_bound(self.instr.opcode);
        }
        self.exec_instr(bus);
    }

    /// Runs the next instruction and leaves its trace line.
    pub fn debug_next_instr(&mut self, bus: &mut Bus)
        ensures
            (*final(self), final(bus)@) == old(self).spec_debug_next_instr(old(bus)@),
    {
        let before: Reg = self.reg;
        let cycles: u32 = self.cycles_frame;
        self.cycles_instr = 0;
        self.read_instr(bus);
        self.last_trace = TraceEntry {
            pc: before.PC,
            opcode: self.instr.opcode,
            op_len: self.op_len,
            operand: self.operand,
            a: before.A,
            x: before.X,
            y: before.Y,
            p: before.P.value,
            s: before.S,
            cycles_frame: cycles,
        };
        self.traced = true;
        proof {
            reveal(CPU::spec_debug_next_instr);
            opcode::lemma_cycles_bound(self.instr.opcode);
        }
        self.exec_instr(bus);
    }

    pub(crate) fn interrupt(&mut self, bus: &mut Bus, vector: usize)
        requires
            vector < usize::MAX,
        ensures
            (*final(self), final(bus)@) == old(self).spec_interrupt(old(bus)@, vector),
    {
        proof {
            reveal(CPU::spec_interrupt);
        }
        let msb: u8 = (self.reg.PC >> 8) as u8;
        let lsb: u8 = (self.reg.PC & 0xFF) as u8;
        let p: u8 = self.reg.P.set_B(2);
        self.push(bus, msb);
        self.push(bus, lsb);
        self.push(bus, p);
        self.reg.P.set_I(true);
        self.reg.PC = Self::read16(bus, vector);
    }

    /// Dispatches a non-maskable interrupt.
    pub fn NMI(&mut self, bus: &mut Bus)
        ensures
            (*final(self), final(bus)@) == old(self).spec_interrupt(old(bus)@, NMI_VECTOR),
    {
        self.interrupt(bus, NMI_VECTOR);
    }

    /// Dispatches an interrupt request.
    pub fn IRQ(&mut self, bus: &mut Bus)
        ensures
            (*final(self), final(bus)@) == old(self).spec_interrupt(old(bus)@, IRQ_VECTOR),
    {
        self.interrupt(bus, IRQ_VECTOR);
    }

    /// Runs the CPU for one cycle.
    pub fn tick(&mut self, bus: &mut Bus) -> (ran: bool)
        ensures
            (ran, *final(self), final(bus)@) == old(self).spec_tick(old(bus)@),
    {
        self.cycles_since_last_exec = self.cycles_since_last_exec.wrapping_add(1);
        self.cycles_frame = self.cycles_frame.wrapping_add(1);
        self.traced = false;
        if self.cycles_since_last_exec >= self.cycles_instr {
            if bus.ppu_mem.get_nmi_pending() && bus.ppu_mem.get_nmi_output() {
                bus.ppu_mem.nmi();
                self.NMI(bus);
                self.cycles_instr = INTERRUPT_CYCLES;
            } else if bus.get_oam_dma_state() {
                let first: bool = bus.oam_dma.2 == 0;
                bus.oam_dma_tick();
                self.cycles_instr = if first {
                    if self.cycles_frame % 2 == 1 {
                        4
                    } else {
                        3
                    }
                } else {
                    2
                };
            } else if bus.mapper.irq_pending() && !self.reg.P.get_I() {
                self.IRQ(bus);
                self.cycles_instr = INTERRUPT_CYCLES;
            } else if self.debug {
                self.debug_next_instr(bus);
            } else {
                self.next_instr(bus);
            }
            self.cycles_since_last_exec = 0;
            true
        } else {
            false
        }
    }
}

/// The number of operand bytes of an instruction.
pub fn operand_lenght(instr: &InstructionInfo) -> (r: u16)
    ensures
        r == operand_len(instr.mode),
{
    match instr.mode {
        OpMode::IMP => 0,
        OpMode::ACC => 0,
        OpMode::IMM => 1,
        OpMode::ZP0 => 1,
        OpMode::ZPX => 1,
        OpMode::ZPY => 1,
        OpMode::IZX => 1,
        OpMode::IZY => 1,
        OpMode::ABS => 2,
        OpMode::ABX => 2,
        OpMode::ABY => 2,
        OpMode::IND => 2,
        OpMode::REL => 1,
    }
}

} // verus!

verus! {

/// The cycles that the first `n` bytes of a sprite DMA take when the DMA
/// begins at a cycle count of `cycles_frame`.
pub open spec fn dma_cycles(n: nat, cycles_frame: u32) -> nat
    decreases n,
{
    if n == 0 {
        0
    } else {
        dma_cycles((n - 1) as nat, cycles_frame) + (dma_byte_cycles(
            (n - 1) as u8,
            cycles_frame,
        ) as nat)
    }
}

/// A whole sprite DMA takes 513 cycles, or 514 when it begins at an odd
/// cycle.
pub proof fn lemma_dma_takes_513(cycles_frame: u32)
    ensures
        dma_cycles(256, cycles_frame) == 512 + dma_start_cycles(cycles_frame),
        513 <= dma_cycles(256, cycles_frame) <= 514,
{
    lemma_dma_cycles(256, cycles_frame);
}

/// The cycles of the first `n` bytes: two each, and the start on top.
pub proof fn lemma_dma_cycles(n: nat, cycles_frame: u32)
    requires
        1 <= n <= 256,
    ensures
        dma_cycles(n, cycles_frame) == 2 * n + dma_start_cycles(cycles_frame),
    decreases n,
{
    if n > 1 {
        lemma_dma_cycles((n - 1) as nat, cycles_frame);
    } else {
        assert(dma_cycles(0, cycles_frame) == 0);
    }
}

/// While a sprite DMA is under way and no interrupt of the picture unit
/// waits, the CPU runs no instruction: when its budget is used up it
/// copies one byte of the DMA, keeps its registers, and takes the budget
/// of that byte; and within the budget it only counts the cycle.
pub proof fn lemma_dma_stalls_cpu(cpu: CPU, bus: BusView)
    requires
        bus.oam_dma.0,
        !(bus.ppu_mem.nmi_pending && bus.ppu_mem.nmi_output),
    ensures
        ({
            let (ran, c, b) = cpu.spec_tick(bus);
            &&& c.reg == cpu.reg
            &&& ran ==> b == bus.oam_dma_tick().1 && c.cycles_instr == dma_byte_cycles(
                bus.oam_dma.2,
                cpu.cycles_frame.wrapping_add(1),
            ) && c.cycles_since_last_exec == 0
            &&& !ran ==> b == bus && c.cycles_instr == cpu.cycles_instr
        }),
{
}

} // verus!

verus! {

impl crate::clock::Clock<bool> for CPU {
    fn tick(&mut self, bus: &mut Bus) -> (ran: bool)
        ensures
            (ran, *final(self), final(bus)@) == old(self).spec_tick(old(bus)@),
    {
        CPU::tick(self, bus)
    }
}

} // verus!
