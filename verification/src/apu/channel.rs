//! The sound channels.

pub mod pulse;
pub mod triangle;

use vstd::prelude::*;
use crate::bus::{Bus, BusView};
use pulse::Pulse;
use triangle::Triangle;

verus! {

/// The length counter value that a five-bit load selects.
pub open spec fn length_of(load: u8) -> u8 {
    match load {
        0 => 10,
        1 => 254,
        2 => 20,
        3 => 2,
        4 => 40,
        5 => 4,
        6 => 80,
        7 => 6,
        8 => 160,
        9 => 8,
        10 => 60,
        11 => 10,
        12 => 14,
        13 => 12,
        14 => 26,
        15 => 14,
        16 => 12,
        17 => 16,
        18 => 24,
        19 => 18,
        20 => 48,
        21 => 20,
        22 => 96,
        23 => 22,
        24 => 192,
        25 => 24,
        26 => 72,
        27 => 26,
        28 => 16,
        29 => 28,
        30 => 32,
        _ => 30,
    }
}

pub fn length_for(load: u8) -> (r: u8)
    ensures
        r == length_of(load),
{
    match load {
        0 => 10,
        1 => 254,
        2 => 20,
        3 => 2,
        4 => 40,
        5 => 4,
        6 => 80,
        7 => 6,
        8 => 160,
        9 => 8,
        10 => 60,
        11 => 10,
        12 => 14,
        13 => 12,
        14 => 26,
        15 => 14,
        16 => 12,
        17 => 16,
        18 => 24,
        19 => 18,
        20 => 48,
        21 => 20,
        22 => 96,
        23 => 22,
        24 => 192,
        25 => 24,
        26 => 72,
        27 => 26,
        28 => 16,
        29 => 28,
        30 => 32,
        _ => 30,
    }
}

/// A channel that is not implemented: it is silent.
#[derive(Debug, Clone, Copy)]
pub struct NullChannel {}

#[allow(clippy::large_enum_variant)]
#[derive(Debug, Clone, Copy)]
pub enum ChannelType {
    NullChannel(NullChannel),
    Pulse(Pulse),
    Triangle(Triangle),
}

/// A sound channel.
pub trait Channel {
    /// Runs the channel for one tick of the sound unit; its level, 0 to 15.
    fn tick(&mut self, bus: &mut Bus) -> (level: u8);
}

impl ChannelType {
    /// The level of a channel on a tick, and the channel and the bus after
    /// it.
    pub open spec fn spec_tick(self, bus: BusView) -> (u8, ChannelType, BusView) {
        match self {
            ChannelType::NullChannel(_) => (0u8, self, bus),
            ChannelType::Pulse(p) => {
                let (level, q, b) = p.spec_handle_channel(bus);
                (level, ChannelType::Pulse(q), b)
            },
            ChannelType::Triangle(t) => {
                let (level, q, b) = t.spec_handle_channel(bus);
                (level, ChannelType::Triangle(q), b)
            },
        }
    }
}

impl Channel for NullChannel {
    fn tick(&mut self, bus: &mut Bus) -> (level: u8)
        ensures
            level == 0,
            *final(self) == *old(self),
            *final(bus) == *old(bus),
    {
        0
    }
}

impl Channel for ChannelType {
    fn tick(&mut self, bus: &mut Bus) -> (level: u8)
        ensures
            (level, *final(self), final(bus)@) == old(self).spec_tick(old(bus)@),
    {
        match self {
            ChannelType::NullChannel(_) => 0,
            ChannelType::Pulse(p) => p.tick(bus),
            ChannelType::Triangle(t) => t.tick(bus),
        }
    }
}

/// A silent channel.
pub fn null() -> (r: ChannelType)
    ensures
        r == ChannelType::NullChannel(NullChannel {  }),
{
    ChannelType::NullChannel(NullChannel {  })
}

} // verus!
