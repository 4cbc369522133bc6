//! The pulse channels: a square wave of one of four duty cycles, with an
//! envelope for its volume and a length counter that silences it.

use vstd::prelude::*;
use crate::apu::channel::{length_for, length_of, Channel, ChannelType};
use crate::apu::memory::{APUMemory, FrameStep};
use crate::bus::{Bus, BusView};

verus! {

/// Whether the wave of duty cycle `duty` is high at step `index` of its
/// eight steps.
pub open spec fn duty_high(duty: u8, index: usize) -> bool {
    if duty == 0 {
        index == 1
    } else if duty == 1 {
        index == 1 || index == 2
    } else if duty == 2 {
        1 <= index <= 4
    } else {
        index == 0 || 3 <= index <= 7
    }
}

#[derive(Debug, Clone, Copy)]
pub struct SweepReg {
    pub enable: bool,
    pub div: u8,
    pub neg: bool,
    pub shift_count: u8,
}

impl SweepReg {
    /// The fields of a sweep register value.
    pub open spec fn of(v: u8) -> SweepReg {
        SweepReg {
            enable: v & 0b1000_0000 != 0,
            div: (v >> 4) & 0b0111,
            neg: v & 0b0000_1000 != 0,
            shift_count: v & 0b0111,
        }
    }

    pub fn new(v: u8) -> (r: Self)
        ensures
            r == Self::of(v),
    {
        Self {
            enable: v & 0b1000_0000 != 0,
            div: (v >> 4) & 0b0111,
            neg: v & 0b0000_1000 != 0,
            shift_count: v & 0b0111,
        }
    }
}

#[allow(non_snake_case)]
#[derive(Debug, Clone, Copy)]
pub struct Register {
    pub duty_cycle: u8,
    /// Halts the length counter and loops the envelope.
    pub LC_halt_flag: bool,
    /// Selects a constant volume in place of the envelope.
    pub envelope_flag: bool,
    /// The constant volume, and the period of the envelope.
    pub envelope: u8,
    pub sweep: SweepReg,
    pub timer: u16,
    pub LC_load: u8,
    pub neg_1_compl_behavior: bool,
}

impl Register {
    /// The registers with the fields of the four channel registers taken
    /// over; the timer and the negate behaviour stay.
    pub open spec fn loaded(self, r: [u8; 4]) -> Register {
        Register {
            duty_cycle: r[0] >> 6,
            LC_halt_flag: r[0] & 0b0010_0000 != 0,
            envelope_flag: r[0] & 0b0001_0000 != 0,
            envelope: r[0] & 0b0000_1111,
            sweep: SweepReg::of(r[1]),
            LC_load: r[3] >> 3,
            ..self
        }
    }

    pub open spec fn power_on() -> Register {
        Register {
            duty_cycle: 0,
            LC_halt_flag: false,
            envelope_flag: false,
            envelope: 0,
            sweep: SweepReg::of(0),
            timer: 0,
            LC_load: 0,
            neg_1_compl_behavior: false,
        }
    }

    pub fn new() -> (r: Self)
        ensures
            r == Self::power_on(),
    {
        Self {
            duty_cycle: 0,
            LC_halt_flag: false,
            envelope_flag: false,
            envelope: 0,
            sweep: SweepReg::new(0),
            timer: 0,
            LC_load: 0,
            neg_1_compl_behavior: false,
        }
    }

    pub fn load_from_channel_reg(&mut self, channel_reg: &[u8; 4])
        ensures
            *final(self) == old(self).loaded(*channel_reg),
    {
        self.duty_cycle = channel_reg[0] >> 6;
        self.LC_halt_flag = channel_reg[0] & 0b0010_0000 != 0;
        self.envelope_flag = channel_reg[0] & 0b0001_0000 != 0;
        self.envelope = channel_reg[0] & 0b0000_1111;
        self.sweep = SweepReg::new(channel_reg[1]);
        self.LC_load = channel_reg[3] >> 3;
    }
}

#[derive(Debug, Clone, Copy)]
pub struct Pulse {
    pub addr_first_reg: usize,
    pub reg: Register,
    pub duty_index: usize,
    /// The length counter: the channel is silent when it is 0.
    pub length: u8,
    /// Whether the envelope starts over at its next clock.
    pub env_start: bool,
    pub env_divider: u8,
    /// The volume of the envelope.
    pub env_decay: u8,
}

/// The timer period that the third and fourth channel registers hold.
pub open spec fn period_of(r: [u8; 4]) -> u16 {
    (((r[3] & 0b0000_0111) as u16) << 8) | (r[2] as u16)
}

impl Pulse {
    /// The reload bit of the channel: bit 1 for the channel at 0x4004, bit 0
    /// for any other.
    pub open spec fn reload_bit(self) -> u8 {
        if self.addr_first_reg == 0x4004 {
            0b010
        } else {
            0b001
        }
    }

    /// The four registers of the channel: those at 0x4004 for the channel
    /// there, those at 0x4000 for any other.
    pub open spec fn regs(self, mem: APUMemory) -> [u8; 4] {
        if self.addr_first_reg == 0x4004 {
            mem.pulse2_channel
        } else {
            mem.pulse1_channel
        }
    }

    /// The channel after a reload that a write to its last register asked
    /// for: the length counter is loaded, and the envelope and the wave
    /// start over.
    pub open spec fn reloaded(self) -> Pulse {
        Pulse { length: length_of(self.reg.LC_load), env_start: true, duty_index: 0, ..self }
    }

    /// The channel after its timer is clocked: it counts down, and from 0
    /// it is reloaded with the period and the wave moves one step.
    pub open spec fn timer_clocked(self, period: u16) -> Pulse {
        if self.reg.timer == 0 {
            Pulse {
                reg: Register { timer: period, ..self.reg },
                duty_index: ((self.duty_index % 8 + 1) % 8) as usize,
                ..self
            }
        } else {
            Pulse { reg: Register { timer: (self.reg.timer - 1) as u16, ..self.reg }, ..self }
        }
    }

    /// The channel after its envelope is clocked. A start loads the volume
    /// with 15 and the divider with the period. Else the divider counts
    /// down, and from 0 it is reloaded and the volume steps down, or from 0
    /// back to 15 where the envelope loops.
    pub open spec fn envelope_clocked(self) -> Pulse {
        if self.env_start {
            Pulse { env_start: false, env_decay: 15, env_divider: self.reg.envelope, ..self }
        } else if self.env_divider == 0 {
            Pulse {
                env_divider: self.reg.envelope,
                env_decay: if self.env_decay > 0 {
                    (self.env_decay - 1) as u8
                } else if self.reg.LC_halt_flag {
                    15
                } else {
                    0
                },
                ..self
            }
        } else {
            Pulse { env_divider: (self.env_divider - 1) as u8, ..self }
        }
    }

    /// The channel after its length counter is clocked: it counts down to
    /// 0 unless it is halted.
    pub open spec fn length_clocked(self) -> Pulse {
        if !self.reg.LC_halt_flag && self.length > 0 {
            Pulse { length: (self.length - 1) as u8, ..self }
        } else {
            self
        }
    }

    /// The channel after the frame sequencer's clocks of a tick.
    pub open spec fn frame_clocked(self, step: FrameStep) -> Pulse {
        match step {
            FrameStep::Idle => self,
            FrameStep::Quarter => self.envelope_clocked(),
            FrameStep::Half => self.envelope_clocked().length_clocked(),
        }
    }

    /// The level of the channel: its volume while the wave is high, the
    /// length counter has not run out and the period is at least 8; else 0.
    pub open spec fn level(self, period: u16) -> u8 {
        if self.length == 0 || period < 8 || !duty_high(self.reg.duty_cycle, self.duty_index) {
            0
        } else if self.reg.envelope_flag {
            self.reg.envelope
        } else {
            self.env_decay
        }
    }

    /// The level of the channel on a tick, and the channel and the bus
    /// after it: the registers are taken over, a reload that was asked for
    /// is done and marked as done, the timer and the frame sequencer clock
    /// the channel, and the level is that of the state reached.
    pub open spec fn spec_handle_channel(self, bus: BusView) -> (u8, Pulse, BusView) {
        let r = self.regs(bus.apu_mem);
        let st_a = Pulse { reg: self.reg.loaded(r), ..self };
        let asked = bus.apu_mem.reload & self.reload_bit() != 0;
        let st_b = if asked {
            st_a.reloaded()
        } else {
            st_a
        };
        let b = if asked {
            BusView {
                apu_mem: APUMemory { reload: bus.apu_mem.reload & !self.reload_bit(), ..bus.apu_mem },
                ..bus
            }
        } else {
            bus
        };
        let st_c = st_b.timer_clocked(period_of(r)).frame_clocked(bus.apu_mem.step);
        (st_c.level(period_of(r)), st_c, b)
    }

    /// A pulse channel at power-on with its first register at
    /// `addr_first_reg`.
    pub open spec fn fresh(addr_first_reg: usize, one_complement_behavior: bool) -> ChannelType {
        ChannelType::Pulse(
            Pulse {
                addr_first_reg,
                reg: Register {
                    neg_1_compl_behavior: one_complement_behavior,
                    ..Register::power_on()
                },
                duty_index: 0,
                length: 0,
                env_start: false,
                env_divider: 0,
                env_decay: 0,
            },
        )
    }

    pub fn new(addr_first_reg: usize, one_complement_behavior: bool) -> (r: ChannelType)
        ensures
            r == Self::fresh(addr_first_reg, one_complement_behavior),
    {
        let mut new = Self {
            addr_first_reg,
            reg: Register::new(),
            duty_index: 0,
            length: 0,
            env_start: false,
            env_divider: 0,
            env_decay: 0,
        };
        new.set_neg_flag_behavior(one_complement_behavior);
        ChannelType::Pulse(new)
    }

    pub fn set_neg_flag_behavior(&mut self, one_complement_behavior: bool)
        ensures
            *final(self) == (Pulse {
                reg: Register { neg_1_compl_behavior: one_complement_behavior, ..old(self).reg },
                ..*old(self)
            }),
    {
        self.reg.neg_1_compl_behavior = one_complement_behavior;
    }

    fn clock_envelope(&mut self)
        ensures
            *final(self) == old(self).envelope_clocked(),
    {
        if self.env_start {
            self.env_start = false;
            self.env_decay = 15;
            self.env_divider = self.reg.envelope;
        } else if self.env_divider == 0 {
            self.env_divider = self.reg.envelope;
            if self.env_decay > 0 {
                self.env_decay -= 1;
            } else if self.reg.LC_halt_flag {
                self.env_decay = 15;
            }
        } else {
            self.env_divider -= 1;
        }
    }

    fn duty_is_high(&self) -> (r: bool)
        ensures
            r == duty_high(self.reg.duty_cycle, self.duty_index),
    {
        let index: usize = self.duty_index;
        if self.reg.duty_cycle == 0 {
            index == 1
        } else if self.reg.duty_cycle == 1 {
            index == 1 || index == 2
        } else if self.reg.duty_cycle == 2 {
            1 <= index && index <= 4
        } else {
            index == 0 || (3 <= index && index <= 7)
        }
    }

    fn clock_timer(&mut self, period: u16)
        ensures
            *final(self) == old(self).timer_clocked(period),
    {
        if self.reg.timer == 0 {
            self.reg.timer = period;
            self.duty_index = (self.duty_index % 8 + 1) % 8;
        } else {
            self.reg.timer -= 1;
        }
    }

    fn clock_frame(&mut self, step: FrameStep)
        ensures
            *final(self) == old(self).frame_clocked(step),
    {
        match step {
            FrameStep::Idle => {},
            FrameStep::Quarter => {
                self.clock_envelope();
            },
            FrameStep::Half => {
                self.clock_envelope();
                if !self.reg.LC_halt_flag && self.length > 0 {
                    self.length -= 1;
                }
            },
        }
    }

    fn current_level(&self, period: u16) -> (level: u8)
        ensures
            level == self.level(period),
    {
        if self.length == 0 || period < 8 || !self.duty_is_high() {
            0
        } else if self.reg.envelope_flag {
            self.reg.envelope
        } else {
            self.env_decay
        }
    }

    /// Takes over the channel registers and does a reload that was asked
    /// for; the timer period that the registers hold.
    fn take_registers(&mut self, bus: &mut Bus) -> (period: u16)
        ensures
            period == period_of(old(self).regs(old(bus)@.apu_mem)),
            *final(self) == ({
                let st_a = Pulse {
                    reg: old(self).reg.loaded(old(self).regs(old(bus)@.apu_mem)),
                    ..*old(self)
                };
                if old(bus)@.apu_mem.reload & old(self).reload_bit() != 0 {
                    st_a.reloaded()
                } else {
                    st_a
                }
            }),
            final(bus)@ == (if old(bus)@.apu_mem.reload & old(self).reload_bit() != 0 {
                BusView {
                    apu_mem: APUMemory {
                        reload: old(bus)@.apu_mem.reload & !old(self).reload_bit(),
                        ..old(bus)@.apu_mem
                    },
                    ..old(bus)@
                }
            } else {
                old(bus)@
            }),
    {
        let second: bool = self.addr_first_reg == 0x4004;
        let channel_reg: [u8; 4] = if second {
            bus.apu_mem.pulse2_channel
        } else {
            bus.apu_mem.pulse1_channel
        };
        let bit: u8 = if second {
            0b010
        } else {
            0b001
        };
        self.reg.load_from_channel_reg(&channel_reg);
        if bus.apu_mem.reload & bit != 0 {
            self.length = length_for(self.reg.LC_load);
            self.env_start = true;
            self.duty_index = 0;
            bus.apu_mem.reload = bus.apu_mem.reload & !bit;
        }
        (((channel_reg[3] & 0b0000_0111) as u16) << 8) | (channel_reg[2] as u16)
    }

    pub fn handle_channel(&mut self, bus: &mut Bus) -> (level: u8)
        ensures
            (level, *final(self), final(bus)@) == old(self).spec_handle_channel(old(bus)@),
    {
        let step: FrameStep = bus.apu_mem.step;
        let period: u16 = self.take_registers(bus);
        self.clock_timer(period);
        self.clock_frame(step);
        self.current_level(period)
    }
}

impl Channel for Pulse {
    fn tick(&mut self, bus: &mut Bus) -> (level: u8)
        ensures
            (level, *final(self), final(bus)@) == old(self).spec_handle_channel(old(bus)@),
    {
        self.handle_channel(bus)
    }
}

} // verus!
