//! The machine: the CPU, the picture unit and the sound unit on one bus,
//! each driven by its divider on the master clock. Within a master cycle
//! the picture unit runs first, then the CPU, then the sound unit.

use vstd::prelude::*;
use crate::apu::mixer::{Mixer, MixerView};
use crate::apu::APU;
use crate::bus::{Bus, BusView};
use crate::cartridge::Cartridge;
use crate::clock::SlaveClock;
use crate::controller::basic::NesController;
use crate::controller::Controller;
use crate::cpu::{TraceEntry, CPU};
use crate::mapper::{load_rom, loaded_mapper, supported, ErrorMissingMapper};
use crate::ppu::palette::{Palette, PaletteTooShort};
use crate::ppu::timing::{dots_left, frame_dots_left, lemma_tick_position};
use crate::ppu::{Frame, PPUInfo, PPUView, PPU};
use crate::save_state::{SaveState, SaveStateView};

verus! {

/// The divisors of the master clock: the picture unit runs in every master
/// cycle, the CPU in every third, the sound unit in every sixth.
pub const PPU_DIVISOR: u32 = 1;

pub const CPU_DIVISOR: u32 = 3;

pub const APU_DIVISOR: u32 = 6;

/// What the host may ask of a running machine.
#[allow(non_camel_case_types)]
#[derive(Debug, Clone, Copy)]
pub enum DebugEvent {
    SHOW_PPU_REG,
    SHOW_PPU_OAM,
    SHOW_PPU_VRAM,
    SHOW_PPU_PALETTE,
    SHOW_CPU_WRAM,
    SHOW_APU_REG,
    SHOW_MAPPER,
    MUTE_GAME,
}

#[derive(Debug, Clone, Copy)]
pub struct DebugFlag {
    pub show_instr: bool,
}

/// One line of the instruction trace of the machine: the line of the CPU
/// and where the picture unit stood when the instruction ran.
#[derive(Debug, Clone, Copy)]
pub struct TraceLine {
    pub cpu: TraceEntry,
    pub scanline: u32,
    pub dot: u32,
}

pub struct Nes {
    pub cpu: CPU,
    pub ppu: PPU,
    pub apu: APU,
    pub bus: Bus,
    pub cpu_clock: SlaveClock,
    pub ppu_clock: SlaveClock,
    pub apu_clock: SlaveClock,
    pub cartridge: Cartridge,
    pub cpu_nmi: bool,
    pub debug_no_nmi: bool,
    pub breakpoint: bool,
    pub mute: bool,
    /// The trace lines of the instructions run under CPU debug, oldest
    /// first, until the host takes them.
    pub trace: Vec<TraceLine>,
}

/// What the machine holds, the cartridge image aside.
pub struct NesView {
    pub cpu: CPU,
    pub ppu: PPUView,
    pub apu: APU,
    pub bus: BusView,
    pub cpu_clock: SlaveClock,
    pub ppu_clock: SlaveClock,
    pub apu_clock: SlaveClock,
    pub cpu_nmi: bool,
    pub debug_no_nmi: bool,
    pub breakpoint: bool,
    pub mute: bool,
    pub trace: Seq<TraceLine>,
}

impl View for Nes {
    type V = NesView;

    open spec fn view(&self) -> NesView {
        NesView {
            cpu: self.cpu,
            ppu: self.ppu@,
            apu: self.apu,
            bus: self.bus@,
            cpu_clock: self.cpu_clock,
            ppu_clock: self.ppu_clock,
            apu_clock: self.apu_clock,
            cpu_nmi: self.cpu_nmi,
            debug_no_nmi: self.debug_no_nmi,
            breakpoint: self.breakpoint,
            mute: self.mute,
            trace: self.trace@,
        }
    }
}

impl NesView {
    /// One master cycle: whether the picture unit ended a scanline in it,
    /// and the machine after it. The units whose dividers fire run in the
    /// order picture unit, CPU, sound unit; an instruction that ran under
    /// CPU debug leaves its trace line.
    pub open spec fn spec_tick(self) -> (bool, NesView) {
        let (ended, ppu, b1) = if self.ppu_clock.fires() {
            self.ppu.spec_tick(self.bus)
        } else {
            (false, self.ppu, self.bus)
        };
        let (ran, cpu, b2) = if self.cpu_clock.fires() {
            self.cpu.spec_tick(b1)
        } else {
            (false, self.cpu, b1)
        };
        let (apu, b3) = if self.apu_clock.fires() {
            self.apu.spec_tick(b2)
        } else {
            (self.apu, b2)
        };
        (
            ended,
            NesView {
                cpu,
                ppu,
                apu,
                bus: b3,
                cpu_clock: self.cpu_clock.spec_tick(),
                ppu_clock: self.ppu_clock.spec_tick(),
                apu_clock: self.apu_clock.spec_tick(),
                breakpoint: false,
                trace: if ran && cpu.traced {
                    self.trace.push(
                        TraceLine { cpu: cpu.last_trace, scanline: ppu.scanline_n, dot: ppu.cycle_n },
                    )
                } else {
                    self.trace
                },
                ..self
            },
        )
    }

    /// The machine after `n` master cycles.
    pub open spec fn ticks(self, n: nat) -> NesView
        decreases n,
    {
        if n == 0 {
            self
        } else {
            self.spec_tick().1.ticks((n - 1) as nat)
        }
    }

    /// The machine after the master cycles up to and including the one in
    /// which the picture unit ends a scanline.
    pub open spec fn spec_tick_scanline(self) -> NesView
        decreases dots_left(self.ppu.cycle_n), self.ppu_clock.dec,
    {
        let (ended, n) = self.spec_tick();
        if ended {
            n
        } else {
            proof {
                lemma_tick_position(self.ppu, self.bus);
            }
            n.spec_tick_scanline()
        }
    }

    /// The machine after `n` scanline ends.
    pub open spec fn tick_scanlines(self, n: nat) -> NesView
        decreases n,
    {
        if n == 0 {
            self
        } else {
            self.spec_tick_scanline().tick_scanlines((n - 1) as nat)
        }
    }

    /// The machine after the master cycles up to and including the one in
    /// which the picture unit ends the scanline on which it completed a
    /// frame; the controller then takes over the host's input.
    pub open spec fn spec_tick_frame(self) -> NesView
        decreases frame_dots_left(self.ppu), self.ppu_clock.dec,
    {
        let (ended, n) = self.spec_tick();
        if ended && n.ppu.frame_finish {
            NesView { bus: BusView { input: n.bus.input.spec_update(), ..n.bus }, ..n }
        } else {
            proof {
                lemma_tick_position(self.ppu, self.bus);
            }
            n.spec_tick_frame()
        }
    }

    /// The machine after a reset: the CPU is reset, the rest stays.
    pub open spec fn reset(self) -> NesView {
        let (cpu, bus) = self.cpu.spec_reset(self.bus);
        NesView { cpu, bus, ..self }
    }

    /// The machine after a debug reset.
    pub open spec fn debug_reset(self) -> NesView {
        let (cpu, bus) = self.cpu.spec_debug_reset(self.bus);
        NesView { cpu, bus, ..self }
    }

    /// The machine after a debug event: `MUTE_GAME` turns the mute state
    /// over, the other events change nothing.
    pub open spec fn debug_event(self, event: DebugEvent) -> NesView {
        match event {
            DebugEvent::MUTE_GAME => NesView {
                mute: !self.mute,
                bus: BusView { mixer: self.bus.mixer.set_mute(!self.mute), ..self.bus },
                ..self
            },
            _ => self,
        }
    }

    /// The snapshot of the machine.
    pub open spec fn save_state(self) -> SaveStateView {
        SaveStateView { cpu_reg: self.cpu.reg, ..self.bus.save_state() }
    }

    /// The machine after a snapshot is put back: the CPU registers, the
    /// work RAM, the picture unit's memories and registers and the mapper
    /// are those of the snapshot, the rest stays.
    pub open spec fn load_state(self, state: SaveStateView) -> NesView {
        NesView {
            bus: self.bus.load_state(state),
            cpu: CPU { reg: state.cpu_reg, ..self.cpu },
            ..self
        }
    }

    /// The machine as built around a cartridge: every unit at power-on,
    /// the cartridge's mapper on the bus, the dividers at the start of
    /// their countdowns, the sound queue open and empty.
    pub open spec fn power_on(cart: &Cartridge, controller: NesController) -> NesView {
        NesView {
            cpu: CPU::power_on(),
            ppu: PPUView::power_on(Palette::black()),
            apu: APU::power_on(),
            bus: BusView::power_on(
                controller,
                MixerView { mute: false, samples: Seq::empty() },
            ).load_mapper(loaded_mapper(cart)),
            cpu_clock: SlaveClock { div: CPU_DIVISOR, dec: 2 },
            ppu_clock: SlaveClock { div: PPU_DIVISOR, dec: 0 },
            apu_clock: SlaveClock { div: APU_DIVISOR, dec: 5 },
            cpu_nmi: false,
            debug_no_nmi: false,
            breakpoint: false,
            mute: false,
            trace: Seq::empty(),
        }
    }
}

impl Nes {
    /// Builds the machine around a cartridge. Fails exactly when the
    /// cartridge's mapper is not supported.
    pub fn new(cartridge: Cartridge, controller: NesController, mixer: Mixer) -> (r: Result<
        Self,
        ErrorMissingMapper,
    >)
        ensures
            match r {
                Ok(nes) => supported(cartridge.header.mapper_num) && nes.cartridge == cartridge
                    && nes@ == NesView::power_on(&cartridge, controller),
                Err(e) => !supported(cartridge.header.mapper_num) && e.mapper_num
                    == cartridge.header.mapper_num,
            },
    {
        let mapper = match load_rom(&cartridge) {
            Ok(m) => m,
            Err(e) => {
                return Err(e);
            },
        };
        let mut bus = Bus::new(controller, mixer);
        bus.load_mapper(mapper);
        bus.mixer.set_mute(false);
        let trace: Vec<TraceLine> = Vec::new();
        Ok(
            Self {
                cpu: CPU::new(),
                ppu: PPU::new(),
                apu: APU::new(),
                bus,
                cpu_clock: SlaveClock::new(CPU_DIVISOR),
                ppu_clock: SlaveClock::new(PPU_DIVISOR),
                apu_clock: SlaveClock::new(APU_DIVISOR),
                cartridge,
                cpu_nmi: false,
                debug_no_nmi: false,
                breakpoint: false,
                mute: false,
                trace,
            },
        )
    }

    /// Replaces the master palette by the 64 colours that raw bytes hold.
    /// Fails, and changes nothing, exactly when there are fewer than 192
    /// bytes.
    pub fn load_palette(&mut self, bytes: &[u8]) -> (r: Result<(), PaletteTooShort>)
        ensures
            match r {
                Ok(_) => {
                    &&& bytes@.len() >= 192
                    &&& final(self)@.ppu.palette.holds(bytes@)
                    &&& final(self)@ == (NesView {
                        ppu: PPUView { palette: final(self)@.ppu.palette, ..old(self)@.ppu },
                        ..old(self)@
                    })
                },
                Err(e) => bytes@.len() < 192 && e.len == bytes@.len() && final(self)@ == old(self)@,
            },
    {
        self.ppu.load_palette(bytes)
    }

    pub fn debug_reset(&mut self)
        ensures
            final(self)@ == old(self)@.debug_reset(),
    {
        self.cpu.debug_reset(&mut self.bus);
        self.ppu.reset();
    }

    pub fn reset(&mut self)
        ensures
            final(self)@ == old(self)@.reset(),
    {
        self.cpu.reset(&mut self.bus);
        self.ppu.reset();
    }

    pub fn get_frame(&self) -> (r: &Frame)
        ensures
            r@ == self@.ppu.frame,
    {
        self.ppu.get_frame()
    }

    /// Draws the diagnostic picture of the four nametables into the
    /// picture; `get_frame` then shows it.
    pub fn get_debug_frame(&mut self)
        ensures
            final(self)@ == (NesView {
                ppu: old(self)@.ppu.debug_show_nametable(old(self)@.bus),
                ..old(self)@
            }),
    {
        self.ppu.debug_show_nametable(&self.bus);
    }

    /// Advances the machine by one master cycle; true when the picture
    /// unit ended a scanline in it.
    pub fn tick(&mut self) -> (ended: bool)
        ensures
            (ended, final(self)@) == old(self)@.spec_tick(),
    {
        let mut b: bool = false;
        self.breakpoint = false;
        if self.ppu_clock.tick() {
            b = self.ppu.tick(&mut self.bus);
        }
        if self.cpu_clock.tick() {
            if self.cpu.tick(&mut self.bus) {
                if self.cpu.traced {
                    self.trace.push(
                        TraceLine {
                            cpu: self.cpu.last_trace,
                            scanline: self.ppu.scanline_n,
                            dot: self.ppu.cycle_n,
                        },
                    );
                }
            }
        }
        if self.apu_clock.tick() {
            self.apu.tick(&mut self.bus);
        }
        b
    }

    pub fn tick_n(&mut self, t: u32)
        ensures
            final(self)@ == old(self)@.ticks(t as nat),
    {
        let mut i: u32 = 0;
        while i < t
            invariant
                i <= t,
                self@.ticks((t - i) as nat) == old(self)@.ticks(t as nat),
            decreases t - i,
        {
            self.tick();
            i += 1;
        }
    }

    pub fn tick_scanline(&mut self)
        ensures
            final(self)@ == old(self)@.spec_tick_scanline(),
    {
        loop
            invariant_except_break
                self@.spec_tick_scanline() == old(self)@.spec_tick_scanline(),
            ensures
                self@ == old(self)@.spec_tick_scanline(),
            decreases dots_left(self@.ppu.cycle_n), self@.ppu_clock.dec,
        {
            proof {
                lemma_tick_position(self@.ppu, self@.bus);
            }
            if self.tick() {
                break ;
            }
        }
    }

    pub fn tick_scanline_n(&mut self, t: u32)
        ensures
            final(self)@ == old(self)@.tick_scanlines(t as nat),
    {
        let mut i: u32 = 0;
        while i < t
            invariant
                i <= t,
                self@.tick_scanlines((t - i) as nat) == old(self)@.tick_scanlines(t as nat),
            decreases t - i,
        {
            self.tick_scanline();
            i += 1;
        }
    }

    /// Runs the machine to the end of the frame, then lets the controller
    /// take over the host's input.
    pub fn tick_frame(&mut self)
        ensures
            final(self)@ == old(self)@.spec_tick_frame(),
    {
        loop
            invariant_except_break
                self@.spec_tick_frame() == old(self)@.spec_tick_frame(),
            ensures
                self@ == old(self)@.spec_tick_frame(),
            decreases frame_dots_left(self@.ppu), self@.ppu_clock.dec,
        {
            proof {
                lemma_tick_position(self@.ppu, self@.bus);
            }
            if self.tick() && self.ppu.get_frame_status() {
                self.bus.input.update();
                break ;
            }
        }
    }

    pub fn ppu_rendering_info(&self) -> (r: PPUInfo)
        ensures
            r.frame_w == self@.ppu.frame.width,
            r.frame_h == self@.ppu.frame.height,
    {
        self.ppu.render_info()
    }

    pub fn set_cpu_debug(&mut self, debug: bool)
        ensures
            final(self)@ == (NesView { cpu: CPU { debug, ..old(self)@.cpu }, ..old(self)@ }),
    {
        self.cpu.set_debug(debug);
    }

    /// Hands the collected trace lines to the host, oldest first.
    pub fn take_trace(&mut self) -> (r: Vec<TraceLine>)
        ensures
            r@ == old(self)@.trace,
            final(self)@ == (NesView { trace: Seq::empty(), ..old(self)@ }),
    {
        let mut out: Vec<TraceLine> = Vec::new();
        out.append(&mut self.trace);
        assert(out@ =~= old(self)@.trace);
        out
    }

    pub fn debug_event(&mut self, event: DebugEvent)
        ensures
            final(self)@ == old(self)@.debug_event(event),
    {
        match event {
            DebugEvent::MUTE_GAME => {
                self.mute = !self.mute;
                self.bus.mixer.set_mute(self.mute);
            },
            _ => {},
        }
    }

    pub fn debug_save_state(&self) -> (state: SaveState)
        ensures
            state@ == self@.save_state(),
    {
        let mut state = self.bus.save_state();
        state.cpu_reg = self.cpu.save_reg_state();
        state
    }

    pub fn debug_load_state(&mut self, state: &SaveState)
        ensures
            final(self)@ == old(self)@.load_state(state@),
    {
        self.bus.load_state(state);
        self.cpu.load_reg_state(&state.cpu_reg);
    }
}

} // verus!

verus! {

impl NesView {
    /// Whether two machines are alike in all that the picture depends on:
    /// CPUs that are the same but for the count of cycles (even on both or
    /// odd on both) and the last trace line, picture units that are the same
    /// but for the count of completed frames, buses that are alike, and the
    /// same dividers for the CPU and the picture unit. The sound unit, its
    /// divider, its queue and the trace are free.
    pub open spec fn alike(self, other: NesView) -> bool {
        &&& crate::cpu::alike::same_cpu(self.cpu, other.cpu)
        &&& crate::ppu::alike::same_picture_unit(self.ppu, other.ppu)
        &&& crate::bus::alike(self.bus, other.bus)
        &&& other.cpu_clock == self.cpu_clock
        &&& other.ppu_clock == self.ppu_clock
    }

    /// Whether `later` has kept what the picture depends on and a snapshot
    /// does not hold: the CPU beside its registers, its last trace line and
    /// its count of cycles, which is even on both or odd on both; the
    /// picture unit but for its frame count; the sprite DMA; the
    /// controller; the status register of the sound unit; and the dividers
    /// of the CPU and the picture unit.
    pub open spec fn kept_outside_snapshot(self, later: NesView) -> bool {
        &&& later.cpu == (CPU {
            reg: later.cpu.reg,
            cycles_frame: later.cpu.cycles_frame,
            last_trace: later.cpu.last_trace,
            ..self.cpu
        })
        &&& later.cpu.cycles_frame % 2 == self.cpu.cycles_frame % 2
        &&& crate::ppu::alike::same_picture_unit(self.ppu, later.ppu)
        &&& later.bus.oam_dma == self.bus.oam_dma
        &&& later.bus.input == self.bus.input
        &&& later.bus.apu_mem.status == self.bus.apu_mem.status
        &&& later.cpu_clock == self.cpu_clock
        &&& later.ppu_clock == self.ppu_clock
    }
}

/// Putting a machine's own snapshot back changes nothing.
pub proof fn lemma_load_own_snapshot(s: NesView)
    ensures
        s.load_state(s.save_state()) == s,
{
}

/// Putting a snapshot back gives the CPU registers, the work RAM, the
/// picture unit's memories and registers and the mapper of the machine it
/// was taken of, and leaves the rest of the later machine.
pub proof fn lemma_load_restores(s: NesView, later: NesView)
    ensures
        ({
            let r = later.load_state(s.save_state());
            &&& r.cpu.reg == s.cpu.reg
            &&& r.bus.wram == s.bus.wram
            &&& r.bus.ppu_mem == s.bus.ppu_mem
            &&& r.bus.mapper == s.bus.mapper
            &&& r == (NesView {
                cpu: CPU { reg: s.cpu.reg, ..later.cpu },
                bus: BusView {
                    wram: s.bus.wram,
                    ppu_mem: s.bus.ppu_mem,
                    mapper: s.bus.mapper,
                    ..later.bus
                },
                ..later
            })
            &&& s.kept_outside_snapshot(later) ==> s.alike(r)
        }),
{
}

/// A master cycle comes out the same on machines that are alike: the
/// picture unit ends a scanline on both or on neither, and the machines
/// are alike after it. The sound unit runs without a trace in what the
/// picture depends on.
pub proof fn lemma_tick_alike(s: NesView, t: NesView)
    requires
        s.alike(t),
    ensures
        s.spec_tick().0 == t.spec_tick().0,
        s.spec_tick().1.alike(t.spec_tick().1),
{
    crate::ppu::alike::lemma_tick_alike(s.ppu, t.ppu, s.bus, t.bus);
    let (_e, _p, sb) = if s.ppu_clock.fires() {
        s.ppu.spec_tick(s.bus)
    } else {
        (false, s.ppu, s.bus)
    };
    let (_f, _q, tb) = if t.ppu_clock.fires() {
        t.ppu.spec_tick(t.bus)
    } else {
        (false, t.ppu, t.bus)
    };
    crate::cpu::alike::lemma_tick_alike(s.cpu, t.cpu, sb, tb);
    let (_r, _c, sc) = if s.cpu_clock.fires() {
        s.cpu.spec_tick(sb)
    } else {
        (false, s.cpu, sb)
    };
    let (_u, _d, tc) = if t.cpu_clock.fires() {
        t.cpu.spec_tick(tb)
    } else {
        (false, t.cpu, tb)
    };
    crate::apu::lemma_tick_keeps_bus(s.apu, sc);
    crate::apu::lemma_tick_keeps_bus(t.apu, tc);
}

/// Machines that are alike stay alike over any number of master cycles,
/// and show the same picture.
pub proof fn lemma_ticks_alike(s: NesView, t: NesView, k: nat)
    requires
        s.alike(t),
    ensures
        s.ticks(k).alike(t.ticks(k)),
        s.ticks(k).ppu.frame == t.ticks(k).ppu.frame,
    decreases k,
{
    if k > 0 {
        lemma_tick_alike(s, t);
        lemma_ticks_alike(s.spec_tick().1, t.spec_tick().1, (k - 1) as nat);
    }
}

/// The round trip of a snapshot: a machine that runs `k` master cycles,
/// has its earlier snapshot put back and runs `k` master cycles again
/// shows the picture that its first run ended with, where the first run
/// has kept what the picture depends on and a snapshot does not hold. The
/// controller's input is part of the machine, and so the same in both
/// runs.
pub proof fn lemma_snapshot_round_trip(s: NesView, k: nat)
    requires
        s.kept_outside_snapshot(s.ticks(k)),
    ensures
        s.ticks(k).load_state(s.save_state()).ticks(k).ppu.frame == s.ticks(k).ppu.frame,
        s.ticks(k).alike(s.ticks(k).load_state(s.save_state()).ticks(k)),
{
    lemma_load_restores(s, s.ticks(k));
    lemma_ticks_alike(s, s.ticks(k).load_state(s.save_state()), k);
}

/// The picture unit runs in every master cycle of a machine whose divider
/// for it divides by one, so that a run from the start of a frame to the
/// end of its last scanline leaves the picture unit at dot 0 of scanline 0
/// with one frame more completed.
pub proof fn lemma_frame_run(s: NesView)
    requires
        s.ppu_clock == (SlaveClock { div: PPU_DIVISOR, dec: 0 }),
        s.ppu.scanline_n == 0,
        s.ppu.cycle_n == 0,
    ensures
        s.spec_tick_frame().ppu.scanline_n == 0,
        s.spec_tick_frame().ppu.cycle_n == 0,
        s.spec_tick_frame().ppu.frame_n == s.ppu.frame_n.wrapping_add(1),
        s.spec_tick_frame().ppu.frame_finish,
{
    lemma_frame_run_from(s, s.ppu.frame_n);
}

/// The end of a frame as `lemma_frame_run` states it, from any place of
/// the frame at or before dot 1 of its last scanline on.
pub proof fn lemma_frame_run_from(s: NesView, frames: u32)
    requires
        s.ppu_clock == (SlaveClock { div: PPU_DIVISOR, dec: 0 }),
        s.ppu.on_grid(),
        s.ppu.dot_index() <= crate::ppu::timing::frame_dot() && s.ppu.cycle_n >= 1
            ==> !s.ppu.frame_finish,
        s.ppu.dot_index() > crate::ppu::timing::frame_dot() ==> s.ppu.frame_finish
            && s.ppu.scanline_n == 261,
        s.ppu.frame_n == if s.ppu.dot_index() <= crate::ppu::timing::frame_dot() {
            frames
        } else {
            frames.wrapping_add(1)
        },
    ensures
        s.spec_tick_frame().ppu.scanline_n == 0,
        s.spec_tick_frame().ppu.cycle_n == 0,
        s.spec_tick_frame().ppu.frame_n == frames.wrapping_add(1),
        s.spec_tick_frame().ppu.frame_finish,
    decreases 89342 - s.ppu.dot_index(),
{
    lemma_tick_position(s.ppu, s.bus);
    let (ended, n) = s.spec_tick();
    if !(ended && n.ppu.frame_finish) {
        lemma_frame_run_from(n, frames);
    }
}

} // verus!
