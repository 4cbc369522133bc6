//! The triangle channel: a 32-step triangle wave, held by a linear counter
//! and a length counter.

use vstd::prelude::*;
use crate::apu::channel::{length_for, length_of, Channel, ChannelType};
use crate::apu::memory::{APUMemory, FrameStep};
use crate::bus::{Bus, BusView};

verus! {

/// The level of the wave at step `index` of its 32 steps: down from 15 to
/// 0, then up from 0 to 15.
pub open spec fn wave_level(index: usize) -> u8 {
    let i = index % 32;
    if i < 16 {
        (15 - i) as u8
    } else {
        (i - 16) as u8
    }
}

/// The reload bit of the channel.
pub const RELOAD_BIT: u8 = 0b100;

#[derive(Debug, Clone, Copy)]
pub struct Register {
    /// Halts the length counter and keeps the linear counter reloading.
    pub control_flag: bool,
    pub linear_counter_load: u8,
    pub timer: u16,
    pub lenght_counter_load: u8,
}

impl Register {
    /// The registers with the fields of the three channel registers taken
    /// over; the timer stays.
    pub open spec fn loaded(self, r: [u8; 3]) -> Register {
        Register {
            control_flag: r[0] & 0b1000_0000 != 0,
            linear_counter_load: r[0] & 0b0111_1111,
            lenght_counter_load: r[2] >> 3,
            ..self
        }
    }

    pub open spec fn power_on() -> Register {
        Register { control_flag: false, linear_counter_load: 0, timer: 0, lenght_counter_load: 0 }
    }

    pub fn new() -> (r: Self)
        ensures
            r == Self::power_on(),
    {
        Self { control_flag: false, linear_counter_load: 0, timer: 0, lenght_counter_load: 0 }
    }

    pub fn load_from_channel_reg(&mut self, channel_reg: &[u8; 3])
        ensures
            *final(self) == old(self).loaded(*channel_reg),
    {
        self.control_flag = channel_reg[0] & 0b1000_0000 != 0;
        self.linear_counter_load = channel_reg[0] & 0b0111_1111;
        self.lenght_counter_load = channel_reg[2] >> 3;
    }
}

#[derive(Debug, Clone, Copy)]
pub struct Triangle {
    pub addr_first_reg: usize,
    pub reg: Register,
    /// The step of the wave.
    pub seq_index: usize,
    pub length: u8,
    pub linear: u8,
    /// Whether the linear counter is reloaded at its next clock.
    pub linear_reload: bool,
}

/// The timer period that the second and third channel registers hold.
pub open spec fn period_of(r: [u8; 3]) -> u16 {
    (((r[2] & 0b0000_0111) as u16) << 8) | (r[1] as u16)
}

impl Triangle {
    /// The channel after a reload that a write to its last register asked
    /// for: the length counter is loaded and the linear counter is to be
    /// reloaded.
    pub open spec fn reloaded(self) -> Triangle {
        Triangle { length: length_of(self.reg.lenght_counter_load), linear_reload: true, ..self }
    }

    /// The channel after its linear counter is clocked: it is reloaded
    /// where that is due, else it counts down to 0; the reload stays due
    /// only under the control flag.
    pub open spec fn linear_clocked(self) -> Triangle {
        Triangle {
            linear: if self.linear_reload {
                self.reg.linear_counter_load
            } else if self.linear > 0 {
                (self.linear - 1) as u8
            } else {
                0
            },
            linear_reload: self.linear_reload && self.reg.control_flag,
            ..self
        }
    }

    /// The channel after its length counter is clocked: it counts down to
    /// 0 unless the control flag halts it.
    pub open spec fn length_clocked(self) -> Triangle {
        if !self.reg.control_flag && self.length > 0 {
            Triangle { length: (self.length - 1) as u8, ..self }
        } else {
            self
        }
    }

    /// The channel after the frame sequencer's clocks of a tick.
    pub open spec fn frame_clocked(self, step: FrameStep) -> Triangle {
        match step {
            FrameStep::Idle => self,
            FrameStep::Quarter => self.linear_clocked(),
            FrameStep::Half => self.linear_clocked().length_clocked(),
        }
    }

    /// The channel after its timer is clocked: it counts down, and from 0
    /// it is reloaded with the period and the wave moves one step, unless
    /// one of the two counters has run out.
    pub open spec fn timer_clocked(self, period: u16) -> Triangle {
        if self.reg.timer == 0 {
            Triangle {
                reg: Register { timer: period, ..self.reg },
                seq_index: if self.length > 0 && self.linear > 0 {
                    ((self.seq_index % 32 + 1) % 32) as usize
                } else {
                    self.seq_index
                },
                ..self
            }
        } else {
            Triangle { reg: Register { timer: (self.reg.timer - 1) as u16, ..self.reg }, ..self }
        }
    }

    /// The level of the channel on a tick, and the channel and the bus
    /// after it: the registers are taken over, a reload that was asked for
    /// is done and marked as done, the frame sequencer and the timer clock
    /// the channel, and the level is that of the wave's step.
    pub open spec fn spec_handle_channel(self, bus: BusView) -> (u8, Triangle, BusView) {
        let r = bus.apu_mem.triangle_channel;
        let t0 = Triangle { reg: self.reg.loaded(r), ..self };
        let asked = bus.apu_mem.reload & RELOAD_BIT != 0;
        let t1 = if asked {
            t0.reloaded()
        } else {
            t0
        };
        let b = if asked {
            BusView {
                apu_mem: APUMemory { reload: bus.apu_mem.reload & !RELOAD_BIT, ..bus.apu_mem },
                ..bus
            }
        } else {
            bus
        };
        let t2 = t1.frame_clocked(bus.apu_mem.step).timer_clocked(period_of(r));
        (wave_level(t2.seq_index), t2, b)
    }

    /// A triangle channel at power-on with its first register at
    /// `addr_first_reg`.
    pub open spec fn fresh(addr_first_reg: usize) -> ChannelType {
        ChannelType::Triangle(
            Triangle {
                addr_first_reg,
                reg: Register::power_on(),
                seq_index: 0,
                length: 0,
                linear: 0,
                linear_reload: false,
            },
        )
    }

    pub fn new(addr_first_reg: usize) -> (r: ChannelType)
        ensures
            r == Self::fresh(addr_first_reg),
    {
        ChannelType::Triangle(
            Self {
                addr_first_reg,
                reg: Register::new(),
                seq_index: 0,
                length: 0,
                linear: 0,
                linear_reload: false,
            },
        )
    }

    fn clock_linear(&mut self)
        ensures
            *final(self) == old(self).linear_clocked(),
    {
        if self.linear_reload {
            self.linear = self.reg.linear_counter_load;
        } else if self.linear > 0 {
            self.linear -= 1;
        }
        if !self.reg.control_flag {
            self.linear_reload = false;
        }
    }

    pub fn handle_channel(&mut self, bus: &mut Bus) -> (level: u8)
        ensures
            (level, *final(self), final(bus)@) == old(self).spec_handle_channel(old(bus)@),
    {
        let channel_reg: [u8; 3] = bus.apu_mem.triangle_channel;
        self.reg.load_from_channel_reg(&channel_reg);
        if bus.apu_mem.reload & RELOAD_BIT != 0 {
            self.length = length_for(self.reg.lenght_counter_load);
            self.linear_reload = true;
            bus.apu_mem.reload = bus.apu_mem.reload & !RELOAD_BIT;
        }
        match bus.apu_mem.step {
            FrameStep::Idle => {},
            FrameStep::Quarter => {
                self.clock_linear();
            },
            FrameStep::Half => {
                self.clock_linear();
                if !self.reg.control_flag && self.length > 0 {
                    self.length -= 1;
                }
            },
        }
        if self.reg.timer == 0 {
            self.reg.timer = (((channel_reg[2] & 0b0000_0111) as u16) << 8) | (channel_reg[1] as u16);
            if self.length > 0 && self.linear > 0 {
                self.seq_index = (self.seq_index % 32 + 1) % 32;
            }
        } else {
            self.reg.timer -= 1;
        }
        let i: usize = self.seq_index % 32;
        if i < 16 {
            (15 - i) as u8
        } else {
            (i - 16) as u8
        }
    }
}

impl Channel for Triangle {
    fn tick(&mut self, bus: &mut Bus) -> (level: u8)
        ensures
            (level, *final(self), final(bus)@) == old(self).spec_handle_channel(old(bus)@),
    {
        self.handle_channel(bus)
    }
}

} // verus!
