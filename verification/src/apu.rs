//! The sound unit: three channels, mixed and decimated to the host's
//! sample rate.
//!
//! The noise and sample channels are not implemented and stay silent, and
//! the frame sequencer raises no interrupt.

pub mod channel;
pub mod memory;
pub mod mixer;

use vstd::prelude::*;
use vstd::array::{spec_array_fill_for_copy_type, spec_array_update};
use crate::apu::memory::APUMemory;
use crate::bus::{Bus, BusView};
use channel::pulse::Pulse;
use channel::triangle::Triangle;
use channel::{Channel, ChannelType};

verus! {

/// A sample period is 20.29 ticks of the sound unit: 40.58 CPU cycles at
/// two cycles to the tick. It is held in binary fixed point with 19 bits
/// behind the point: `SAMPLE_STEP` whole ticks and `SAMPLE_FRACTION` parts
/// of `SAMPLE_ONE`.
pub const SAMPLE_STEP: u32 = 20;

pub const SAMPLE_FRACTION: u32 = 152044;

pub const SAMPLE_ONE: u32 = 524288;

#[derive(Debug, Clone, Copy)]
pub struct APU {
    pub channels: [ChannelType; 3],
    pub debug_count: usize,
    /// Ticks left in the running sample period.
    pub next_sample_output: u32,
    /// The fraction of a tick that the sample periods so far have left
    /// over, in parts of `SAMPLE_ONE`.
    pub step_fract: u32,
    /// The sum of the channel levels over the running sample period.
    pub output: u32,
}

/// A sum of levels as a sample: sums beyond 16 bits are held as the
/// largest.
pub open spec fn sample_of(sum: u32) -> u16 {
    if sum > 0xFFFF {
        0xFFFFu16
    } else {
        sum as u16
    }
}

impl APU {
    /// Whether the status register enables channel `i`.
    pub open spec fn enabled(status: u8, i: int) -> bool {
        (status >> (i as u8)) & 1 == 1
    }

    /// The sum of the levels of the first `n` channels on a tick, and the
    /// sound unit and the bus after those channels have run. A channel that
    /// the status register disables does not run and adds nothing.
    pub open spec fn channels_upto(self, bus: BusView, status: u8, n: int) -> (u32, APU, BusView)
        decreases n,
    {
        if n <= 0 {
            (0u32, self, bus)
        } else {
            let (sum, a, b) = self.channels_upto(bus, status, n - 1);
            if Self::enabled(status, n - 1) && n <= 3 {
                let (level, ch, b1) = a.channels[n - 1].spec_tick(b);
                (
                    (sum + level) as u32,
                    APU { channels: spec_array_update(a.channels, n - 1, ch), ..a },
                    b1,
                )
            } else {
                (sum, a, b)
            }
        }
    }

    /// The length of the next sample period in whole ticks, and the
    /// fraction left over, given the fraction left over before.
    pub open spec fn next_period(step_fract: u32) -> (u32, u32) {
        let f = (step_fract % SAMPLE_ONE) + SAMPLE_FRACTION;
        if f >= SAMPLE_ONE {
            ((SAMPLE_STEP + 1) as u32, (f - SAMPLE_ONE) as u32)
        } else {
            (SAMPLE_STEP, f as u32)
        }
    }

    /// One tick of the sound unit: whether a sample period has ended and,
    /// if so, its sample; and the sound unit and the bus after the tick.
    /// The frame sequencer steps and the enabled channels run; their
    /// levels are added to the running sum; and where the period ends, the
    /// sum is the sample and the next period begins.
    pub open spec fn spec_mixer(self, bus: BusView) -> ((bool, u16), APU, BusView) {
        let (_step, mem) = bus.apu_mem.spec_tick();
        let b0 = BusView { apu_mem: mem, ..bus };
        let (sum, a, b) = self.channels_upto(b0, mem.status, 3);
        let total = a.output.wrapping_add(sum);
        if a.next_sample_output <= 1 {
            let (ticks, fract) = Self::next_period(a.step_fract);
            (
                (true, sample_of(total)),
                APU { output: 0, next_sample_output: ticks, step_fract: fract, ..a },
                b,
            )
        } else {
            (
                (false, 0u16),
                APU { output: total, next_sample_output: (a.next_sample_output - 1) as u32, ..a },
                b,
            )
        }
    }

    /// The bus after a tick of the sound unit: a sample that the tick
    /// yields goes to the queue.
    pub open spec fn spec_tick(self, bus: BusView) -> (APU, BusView) {
        let ((emit, sample), a, b) = self.spec_mixer(bus);
        if emit {
            (a, BusView { mixer: b.mixer.add_to_stream(sample), ..b })
        } else {
            (a, b)
        }
    }

    /// A sound unit at power-on: two pulse channels and the triangle
    /// channel, at the start of a sample period.
    pub open spec fn power_on() -> APU {
        APU {
            channels: spec_array_update(
                spec_array_update(
                    spec_array_update(
                        spec_array_fill_for_copy_type::<ChannelType, 3>(Triangle::fresh(0x4008)),
                        0,
                        Pulse::fresh(0x4000, true),
                    ),
                    1,
                    Pulse::fresh(0x4004, false),
                ),
                2,
                Triangle::fresh(0x4008),
            ),
            debug_count: 0,
            next_sample_output: SAMPLE_STEP,
            step_fract: SAMPLE_FRACTION,
            output: 0,
        }
    }

    pub fn new() -> (r: Self)
        ensures
            r == Self::power_on(),
    {
        let r = Self {
            channels: [Pulse::new(0x4000, true), Pulse::new(0x4004, false), Triangle::new(0x4008)],
            debug_count: 0,
            next_sample_output: SAMPLE_STEP,
            step_fract: SAMPLE_FRACTION,
            output: 0,
        };
        assert(r.channels =~= Self::power_on().channels);
        r
    }

    /// Runs the channels for one tick and mixes them.
    pub fn mixer(&mut self, bus: &mut Bus) -> (r: (bool, u16))
        ensures
            (r, *final(self), final(bus)@) == old(self).spec_mixer(old(bus)@),
    {
        bus.apu_mem.tick();
        let status: u8 = bus.apu_mem.status;
        let mut sum: u32 = 0;
        let mut i: usize = 0;
        let ghost b0 = bus@;
        while i < 3
            invariant
                i <= 3,
                sum <= 255 * i,
                (sum, *self, bus@) == old(self).channels_upto(b0, status, i as int),
            decreases 3 - i,
        {
            if (status >> (i as u8)) & 1 == 1 {
                let ghost before = *self;
                let mut ch: ChannelType = self.channels[i];
                let level: u8 = ch.tick(bus);
                self.channels[i] = ch;
                assert(self.channels =~= spec_array_update(before.channels, i as int, ch));
                sum = sum + level as u32;
            }
            i += 1;
        }
        let total: u32 = self.output.wrapping_add(sum);
        if self.next_sample_output <= 1 {
            let f: u32 = (self.step_fract % SAMPLE_ONE) + SAMPLE_FRACTION;
            if f >= SAMPLE_ONE {
                self.next_sample_output = SAMPLE_STEP + 1;
                self.step_fract = f - SAMPLE_ONE;
            } else {
                self.next_sample_output = SAMPLE_STEP;
                self.step_fract = f;
            }
            self.output = 0;
            (
                true,
                if total > 0xFFFF {
                    0xFFFF
                } else {
                    total as u16
                },
            )
        } else {
            self.next_sample_output -= 1;
            self.output = total;
            (false, 0)
        }
    }

    /// Runs the sound unit for one tick.
    pub fn tick(&mut self, bus: &mut Bus)
        ensures
            (*final(self), final(bus)@) == old(self).spec_tick(old(bus)@),
    {
        let (mix, r) = self.mixer(bus);
        if mix {
            bus.mixer.add_to_stream(r);
        }
    }
}

} // verus!

verus! {

impl crate::clock::Clock<()> for APU {
    fn tick(&mut self, bus: &mut Bus)
        ensures
            (*final(self), final(bus)@) == old(self).spec_tick(old(bus)@),
    {
        APU::tick(self, bus)
    }
}

} // verus!

verus! {

/// A channel that runs leaves the bus alike: it marks its reload as done
/// and touches nothing else.
pub proof fn lemma_channel_keeps_bus(channel: ChannelType, bus: BusView)
    ensures
        crate::bus::alike(bus, channel.spec_tick(bus).2),
{
}

/// The channels that run on a tick leave the bus alike.
pub proof fn lemma_channels_keep_bus(apu: APU, bus: BusView, status: u8, n: int)
    ensures
        crate::bus::alike(bus, apu.channels_upto(bus, status, n).2),
    decreases n,
{
    if n > 0 {
        lemma_channels_keep_bus(apu, bus, status, n - 1);
        let (_sum, a, b) = apu.channels_upto(bus, status, n - 1);
        if n <= 3 {
            lemma_channel_keeps_bus(a.channels[n - 1], b);
        }
    }
}

/// A tick of the sound unit leaves the bus alike: the CPU and the picture
/// unit cannot tell that it ran.
pub proof fn lemma_tick_keeps_bus(apu: APU, bus: BusView)
    ensures
        crate::bus::alike(bus, apu.spec_tick(bus).1),
{
    let (_step, mem) = bus.apu_mem.spec_tick();
    lemma_channels_keep_bus(apu, BusView { apu_mem: mem, ..bus }, mem.status, 3);
}

} // verus!
