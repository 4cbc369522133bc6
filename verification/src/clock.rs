//! Clocks: the trait of the units that the master clock drives, and the
//! dividers that derive each unit's tick from the master clock.

use vstd::prelude::*;
use crate::bus::Bus;

verus! {

/// A unit that runs in ticks and reaches the others over the bus.
pub trait Clock<T> {
    fn tick(&mut self, bus: &mut Bus) -> T;
}

/// A divider on the master clock: it fires once every `div` master cycles.
#[derive(Debug, Clone, Copy)]
pub struct SlaveClock {
    pub div: u32,
    /// The master cycles left before the one in which the divider fires.
    pub dec: u32,
}

impl SlaveClock {
    /// The countdown that a divider starts over with when it has fired.
    pub open spec fn reload(self) -> u32 {
        if self.div == 0 {
            0
        } else {
            (self.div - 1) as u32
        }
    }

    /// Whether the divider fires in the next master cycle.
    pub open spec fn fires(self) -> bool {
        self.dec == 0
    }

    /// The divider after one master cycle: it counts down, and starts over
    /// when it has fired.
    pub open spec fn spec_tick(self) -> SlaveClock {
        if self.dec == 0 {
            SlaveClock { dec: self.reload(), ..self }
        } else {
            SlaveClock { dec: (self.dec - 1) as u32, ..self }
        }
    }

    /// A divider by `div` that fires in its `div`-th master cycle.
    pub fn new(div: u32) -> (r: Self)
        requires
            div >= 1,
        ensures
            r == (SlaveClock { div, dec: (div - 1) as u32 }),
    {
        SlaveClock { div, dec: div - 1 }
    }

    /// Starts the countdown over from the divisor itself, so that the
    /// divider next fires one master cycle later than in its steady rhythm.
    pub fn reset(&mut self)
        ensures
            *final(self) == (SlaveClock { dec: old(self).div, ..*old(self) }),
    {
        self.dec = self.div;
    }

    /// Advances one master cycle; true when the unit is to run in it.
    pub fn tick(&mut self) -> (fire: bool)
        ensures
            fire == old(self).fires(),
            *final(self) == old(self).spec_tick(),
    {
        if self.dec == 0 {
            self.dec = if self.div == 0 {
                0
            } else {
                self.div - 1
            };
            true
        } else {
            self.dec -= 1;
            false
        }
    }
}

} // verus!
