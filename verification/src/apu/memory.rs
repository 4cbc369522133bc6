//! The sound unit's registers as the CPU writes them, and the frame
//! sequencer that times the envelope and length-counter clocks.

use vstd::prelude::*;
use vstd::array::{spec_array_fill_for_copy_type, spec_array_update};
use crate::memory::{MemRead, MemWrite};

verus! {

/// The sequencer's clocks fall on these ticks of the sound unit, counted
/// from the start of a sequence.
pub const FRAME_STEP_1: u32 = 3728;

pub const FRAME_STEP_2: u32 = 7456;

pub const FRAME_STEP_3: u32 = 11185;

/// The last step of the four-step sequence.
pub const FRAME_STEP_4: u32 = 14914;

/// The last step of the five-step sequence.
pub const FRAME_STEP_5: u32 = 18640;

/// What the frame sequencer clocks on a tick: nothing, the envelopes and
/// the linear counter (a quarter frame), or those and the length counters
/// too (a half frame).
#[derive(Debug, Clone, Copy, PartialEq, Eq, Structural)]
pub enum FrameStep {
    Idle,
    Quarter,
    Half,
}

#[derive(Debug, Clone, Copy)]
pub struct APUMemory {
    pub pulse1_channel: [u8; 4],
    pub pulse2_channel: [u8; 4],
    pub triangle_channel: [u8; 3],
    pub noise_channel: [u8; 3],
    pub dmc_channel: [u8; 4],
    pub status: u8,
    pub frame_counter: u8,
    /// Ticks left until a write to the frame counter restarts the sequence;
    /// 0 when none is under way.
    pub write_fc_counter: usize,
    /// The tick of the running sequence.
    pub frame_ticks: u32,
    /// One bit per channel (0: first pulse, 1: second pulse, 2: triangle),
    /// set by a write to the channel's last register and cleared by the
    /// channel when it has reloaded its length counter.
    pub reload: u8,
    /// What the frame sequencer clocks on the running tick.
    pub step: FrameStep,
}

/// The last step of the sequence that a frame counter value selects: bit 7
/// selects the five-step sequence.
pub open spec fn last_step(frame_counter: u8) -> u32 {
    if frame_counter & 0b1000_0000 != 0 {
        FRAME_STEP_5
    } else {
        FRAME_STEP_4
    }
}

/// What the sequencer clocks on tick `t` of a sequence.
pub open spec fn step_at(frame_counter: u8, t: u32) -> FrameStep {
    if t == FRAME_STEP_2 || t == last_step(frame_counter) {
        FrameStep::Half
    } else if t == FRAME_STEP_1 || t == FRAME_STEP_3 {
        FrameStep::Quarter
    } else {
        FrameStep::Idle
    }
}

impl APUMemory {
    /// The registers at power-on: all zero.
    pub open spec fn power_on() -> APUMemory {
        APUMemory {
            pulse1_channel: spec_array_fill_for_copy_type::<u8, 4>(0),
            pulse2_channel: spec_array_fill_for_copy_type::<u8, 4>(0),
            triangle_channel: spec_array_fill_for_copy_type::<u8, 3>(0),
            noise_channel: spec_array_fill_for_copy_type::<u8, 3>(0),
            dmc_channel: spec_array_fill_for_copy_type::<u8, 4>(0),
            status: 0,
            frame_counter: 0,
            write_fc_counter: 0,
            frame_ticks: 0,
            reload: 0,
            step: FrameStep::Idle,
        }
    }

    /// What the sequencer clocks on the next tick, and the registers after
    /// it. The sequence advances by one tick and starts over behind its
    /// last step; two ticks after a write to the frame counter it starts
    /// over at once.
    pub open spec fn spec_tick(self) -> (FrameStep, APUMemory) {
        if self.write_fc_counter == 1 {
            (
                FrameStep::Idle,
                APUMemory { write_fc_counter: 0, frame_ticks: 0, step: FrameStep::Idle, ..self },
            )
        } else {
            let t: u32 = if self.frame_ticks >= last_step(self.frame_counter) {
                0
            } else {
                (self.frame_ticks + 1) as u32
            };
            (
                step_at(self.frame_counter, t),
                APUMemory {
                    write_fc_counter: if self.write_fc_counter > 0 {
                        (self.write_fc_counter - 1) as usize
                    } else {
                        0
                    },
                    frame_ticks: t,
                    step: step_at(self.frame_counter, t),
                    ..self
                },
            )
        }
    }

    /// The registers after a write of the CPU. Writes to addresses that
    /// hold no register are dropped.
    pub open spec fn spec_write(self, addr: usize, value: u8) -> APUMemory {
        if addr == 0x4000 {
            APUMemory { pulse1_channel: spec_array_update(self.pulse1_channel, 0, value), ..self }
        } else if addr == 0x4001 {
            APUMemory { pulse1_channel: spec_array_update(self.pulse1_channel, 1, value), ..self }
        } else if addr == 0x4002 {
            APUMemory { pulse1_channel: spec_array_update(self.pulse1_channel, 2, value), ..self }
        } else if addr == 0x4003 {
            APUMemory {
                pulse1_channel: spec_array_update(self.pulse1_channel, 3, value),
                reload: self.reload | 0b001,
                ..self
            }
        } else if addr == 0x4004 {
            APUMemory { pulse2_channel: spec_array_update(self.pulse2_channel, 0, value), ..self }
        } else if addr == 0x4005 {
            APUMemory { pulse2_channel: spec_array_update(self.pulse2_channel, 1, value), ..self }
        } else if addr == 0x4006 {
            APUMemory { pulse2_channel: spec_array_update(self.pulse2_channel, 2, value), ..self }
        } else if addr == 0x4007 {
            APUMemory {
                pulse2_channel: spec_array_update(self.pulse2_channel, 3, value),
                reload: self.reload | 0b010,
                ..self
            }
        } else if addr == 0x4008 {
            APUMemory {
                triangle_channel: spec_array_update(self.triangle_channel, 0, value),
                ..self
            }
        } else if addr == 0x400A {
            APUMemory {
                triangle_channel: spec_array_update(self.triangle_channel, 1, value),
                ..self
            }
        } else if addr == 0x400B {
            APUMemory {
                triangle_channel: spec_array_update(self.triangle_channel, 2, value),
                reload: self.reload | 0b100,
                ..self
            }
        } else if addr == 0x400C {
            APUMemory {
                noise_channel: spec_array_update(self.noise_channel, 0, value & 0b0011_1111),
                ..self
            }
        } else if addr == 0x400E {
            APUMemory {
                noise_channel: spec_array_update(self.noise_channel, 1, value & 0b1000_1111),
                ..self
            }
        } else if addr == 0x400F {
            APUMemory {
                noise_channel: spec_array_update(self.noise_channel, 2, value & 0b1111_1000),
                ..self
            }
        } else if addr == 0x4010 {
            APUMemory {
                dmc_channel: spec_array_update(self.dmc_channel, 0, value & 0b1100_1111),
                ..self
            }
        } else if addr == 0x4011 {
            APUMemory {
                dmc_channel: spec_array_update(self.dmc_channel, 1, value & 0b0111_1111),
                ..self
            }
        } else if addr == 0x4012 {
            APUMemory { dmc_channel: spec_array_update(self.dmc_channel, 2, value), ..self }
        } else if addr == 0x4013 {
            APUMemory { dmc_channel: spec_array_update(self.dmc_channel, 3, value), ..self }
        } else if addr == 0x4015 {
            APUMemory { status: value & 0b0001_1111, ..self }
        } else if addr == 0x4017 {
            APUMemory { frame_counter: value & 0b1100_0000, write_fc_counter: 2, ..self }
        } else {
            self
        }
    }

    /// What the CPU reads: the status at 0x4015, 0 elsewhere.
    pub open spec fn spec_read(self, addr: usize) -> u8 {
        if addr == 0x4015 {
            self.status
        } else {
            0
        }
    }

    /// The registers of the channel whose first register is at `addr`; a
    /// single 0 for an address where no channel starts.
    pub open spec fn channel_reg(self, addr: usize) -> Seq<u8> {
        if addr == 0x4000 {
            self.pulse1_channel@
        } else if addr == 0x4004 {
            self.pulse2_channel@
        } else if addr == 0x4008 {
            self.triangle_channel@
        } else if addr == 0x400C {
            self.noise_channel@
        } else if addr == 0x4010 {
            self.dmc_channel@
        } else {
            seq![0u8]
        }
    }

    /// The registers after register `reg_n` of the channel at `addr` is set.
    /// Nothing changes where no channel starts at `addr` or the channel has
    /// no such register.
    pub open spec fn spec_set_channel_reg(self, addr: usize, reg_n: usize, value: u8) -> APUMemory {
        if addr == 0x4000 && reg_n < 4 {
            APUMemory {
                pulse1_channel: spec_array_update(self.pulse1_channel, reg_n as int, value),
                ..self
            }
        } else if addr == 0x4004 && reg_n < 4 {
            APUMemory {
                pulse2_channel: spec_array_update(self.pulse2_channel, reg_n as int, value),
                ..self
            }
        } else if addr == 0x4008 && reg_n < 3 {
            APUMemory {
                triangle_channel: spec_array_update(self.triangle_channel, reg_n as int, value),
                ..self
            }
        } else if addr == 0x400C && reg_n < 3 {
            APUMemory {
                noise_channel: spec_array_update(self.noise_channel, reg_n as int, value),
                ..self
            }
        } else if addr == 0x4010 && reg_n < 4 {
            APUMemory {
                dmc_channel: spec_array_update(self.dmc_channel, reg_n as int, value),
                ..self
            }
        } else {
            self
        }
    }

    pub fn new() -> (r: Self)
        ensures
            r == Self::power_on(),
    {
        Self {
            pulse1_channel: [0u8;4],
            pulse2_channel: [0u8;4],
            triangle_channel: [0u8;3],
            noise_channel: [0u8;3],
            dmc_channel: [0u8;4],
            status: 0,
            frame_counter: 0,
            write_fc_counter: 0,
            frame_ticks: 0,
            reload: 0,
            step: FrameStep::Idle,
        }
    }

    /// Advances the frame sequencer by one tick of the sound unit.
    pub fn tick(&mut self) -> (step: FrameStep)
        ensures
            (step, *final(self)) == old(self).spec_tick(),
    {
        if self.write_fc_counter == 1 {
            self.write_fc_counter = 0;
            self.frame_ticks = 0;
            self.step = FrameStep::Idle;
            return FrameStep::Idle;
        }
        if self.write_fc_counter > 0 {
            self.write_fc_counter -= 1;
        }
        let last: u32 = if self.frame_counter & 0b1000_0000 != 0 {
            FRAME_STEP_5
        } else {
            FRAME_STEP_4
        };
        if self.frame_ticks >= last {
            self.frame_ticks = 0;
        } else {
            self.frame_ticks += 1;
        }
        let t: u32 = self.frame_ticks;
        self.step = if t == FRAME_STEP_2 || t == last {
            FrameStep::Half
        } else if t == FRAME_STEP_1 || t == FRAME_STEP_3 {
            FrameStep::Quarter
        } else {
            FrameStep::Idle
        };
        self.step
    }

    /// The registers of the channel whose first register is at `addr`.
    pub fn get_channel_reg(&self, addr: usize) -> (r: Vec<u8>)
        ensures
            r@ == self.channel_reg(addr),
    {
        let mut v: Vec<u8> = Vec::new();
        if addr == 0x4000 {
            v.push(self.pulse1_channel[0]);
            v.push(self.pulse1_channel[1]);
            v.push(self.pulse1_channel[2]);
            v.push(self.pulse1_channel[3]);
        } else if addr == 0x4004 {
            v.push(self.pulse2_channel[0]);
            v.push(self.pulse2_channel[1]);
            v.push(self.pulse2_channel[2]);
            v.push(self.pulse2_channel[3]);
        } else if addr == 0x4008 {
            v.push(self.triangle_channel[0]);
            v.push(self.triangle_channel[1]);
            v.push(self.triangle_channel[2]);
        } else if addr == 0x400C {
            v.push(self.noise_channel[0]);
            v.push(self.noise_channel[1]);
            v.push(self.noise_channel[2]);
        } else if addr == 0x4010 {
            v.push(self.dmc_channel[0]);
            v.push(self.dmc_channel[1]);
            v.push(self.dmc_channel[2]);
            v.push(self.dmc_channel[3]);
        } else {
            v.push(0);
        }
        assert(v@ =~= self.channel_reg(addr));
        v
    }

    /// Sets register `reg_n` of the channel whose first register is at
    /// `addr`.
    pub fn set_channel_reg(&mut self, addr: usize, reg_n: usize, value: u8)
        ensures
            *final(self) == old(self).spec_set_channel_reg(addr, reg_n, value),
    {
        if addr == 0x4000 && reg_n < 4 {
            self.pulse1_channel[reg_n] = value;
            assert(self.pulse1_channel =~= spec_array_update(old(self).pulse1_channel, reg_n as int, value));
        } else if addr == 0x4004 && reg_n < 4 {
            self.pulse2_channel[reg_n] = value;
            assert(self.pulse2_channel =~= spec_array_update(old(self).pulse2_channel, reg_n as int, value));
        } else if addr == 0x4008 && reg_n < 3 {
            self.triangle_channel[reg_n] = value;
            assert(self.triangle_channel =~= spec_array_update(old(self).triangle_channel, reg_n as int, value));
        } else if addr == 0x400C && reg_n < 3 {
            self.noise_channel[reg_n] = value;
            assert(self.noise_channel =~= spec_array_update(old(self).noise_channel, reg_n as int, value));
        } else if addr == 0x4010 && reg_n < 4 {
            self.dmc_channel[reg_n] = value;
            assert(self.dmc_channel =~= spec_array_update(old(self).dmc_channel, reg_n as int, value));
        }
    }
}

impl MemRead for APUMemory {
    fn read(&mut self, addr: usize) -> (value: u8)
        ensures
            value == old(self).spec_read(addr),
            *final(self) == *old(self),
    {
        if addr == 0x4015 {
            self.status
        } else {
            0
        }
    }
}

impl MemWrite for APUMemory {
    fn write(&mut self, addr: usize, value: u8)
        ensures
            *final(self) == old(self).spec_write(addr, value),
    {
        if addr == 0x4000 {
            self.set_channel_reg(0x4000, 0, value);
        } else if addr == 0x4001 {
            self.set_channel_reg(0x4000, 1, value);
        } else if addr == 0x4002 {
            self.set_channel_reg(0x4000, 2, value);
        } else if addr == 0x4003 {
            self.set_channel_reg(0x4000, 3, value);
            self.reload = self.reload | 0b001;
        } else if addr == 0x4004 {
            self.set_channel_reg(0x4004, 0, value);
        } else if addr == 0x4005 {
            self.set_channel_reg(0x4004, 1, value);
        } else if addr == 0x4006 {
            self.set_channel_reg(0x4004, 2, value);
        } else if addr == 0x4007 {
            self.set_channel_reg(0x4004, 3, value);
            self.reload = self.reload | 0b010;
        } else if addr == 0x4008 {
            self.set_channel_reg(0x4008, 0, value);
        } else if addr == 0x400A {
            self.set_channel_reg(0x4008, 1, value);
        } else if addr == 0x400B {
            self.set_channel_reg(0x4008, 2, value);
            self.reload = self.reload | 0b100;
        } else if addr == 0x400C {
            self.set_channel_reg(0x400C, 0, value & 0b0011_1111);
        } else if addr == 0x400E {
            self.set_channel_reg(0x400C, 1, value & 0b1000_1111);
        } else if addr == 0x400F {
            self.set_channel_reg(0x400C, 2, value & 0b1111_1000);
        } else if addr == 0x4010 {
            self.set_channel_reg(0x4010, 0, value & 0b1100_1111);
        } else if addr == 0x4011 {
            self.set_channel_reg(0x4010, 1, value & 0b0111_1111);
        } else if addr == 0x4012 {
            self.set_channel_reg(0x4010, 2, value);
        } else if addr == 0x4013 {
            self.set_channel_reg(0x4010, 3, value);
        } else if addr == 0x4015 {
            self.status = value & 0b0001_1111;
        } else if addr == 0x4017 {
            self.frame_counter = value & 0b1100_0000;
            self.write_fc_counter = 2;
        }
    }
}

} // verus!
