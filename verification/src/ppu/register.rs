//! The picture unit's rendering registers: the background shifters and
//! latches, the secondary sprite memory and the eight sprite output units.

use vstd::prelude::*;
use vstd::array::{spec_array_fill_for_copy_type, spec_array_update};
use crate::ppu::memory::Oam;

verus! {

/// One sprite output unit: two pattern shifters, the attribute latch, the
/// countdown to the sprite's column, the number of pixels already shifted
/// out, and whether the unit shows sprite 0.
#[derive(Debug, Clone, Copy)]
pub struct SpriteUnit {
    pub low: u8,
    pub high: u8,
    pub latch: u8,
    pub x: u8,
    pub shifted: u8,
    pub sprite0: bool,
}

impl SpriteUnit {
    /// A unit that shows nothing.
    pub open spec fn idle() -> SpriteUnit {
        SpriteUnit { low: 0, high: 0, latch: 0, x: 0xFF, shifted: 0, sprite0: false }
    }

    /// The unit one dot nearer to its column.
    pub open spec fn count_down(self) -> SpriteUnit {
        if self.x > 0 {
            SpriteUnit { x: (self.x - 1) as u8, ..self }
        } else {
            self
        }
    }

    /// Whether the unit is putting out pixels: it has reached its column
    /// and has not shifted out all eight.
    pub open spec fn active(self) -> bool {
        self.x == 0 && self.shifted < 8
    }

    /// The two-bit pixel at the unit's output.
    pub open spec fn pixel(self) -> u8 {
        (self.low & 1) | ((self.high & 1) << 1)
    }

    /// The unit after one pixel has been shifted out.
    pub open spec fn shift(self) -> SpriteUnit {
        SpriteUnit {
            low: self.low >> 1,
            high: self.high >> 1,
            shifted: (self.shifted + 1) as u8,
            ..self
        }
    }
}

/// The array of the eight items `f(0)` to `f(7)`. The array `a` only gives
/// the result its type.
pub open spec fn tabulate8<T>(a: [T; 8], f: spec_fn(int) -> T) -> [T; 8] {
    let a0 = spec_array_update(a, 0, f(0));
    let a1 = spec_array_update(a0, 1, f(1));
    let a2 = spec_array_update(a1, 2, f(2));
    let a3 = spec_array_update(a2, 3, f(3));
    let a4 = spec_array_update(a3, 4, f(4));
    let a5 = spec_array_update(a4, 5, f(5));
    let a6 = spec_array_update(a5, 6, f(6));
    spec_array_update(a6, 7, f(7))
}

/// The array whose every item is `f` of the item of `a` at its place.
pub open spec fn map8<T>(a: [T; 8], f: spec_fn(T) -> T) -> [T; 8] {
    tabulate8(a, |i: int| f(a[i]))
}

/// The array of eight items `t`.
pub open spec fn fill8<T>(a: [T; 8], t: T) -> [T; 8] {
    tabulate8(a, |i: int| t)
}

#[allow(non_snake_case)]
#[derive(Debug, Clone, Copy)]
pub struct Register {
    /// The two background pattern shifters; bit 0 is the pixel at the
    /// output when fine X is 0.
    pub shift_back_16: [u16; 2],
    /// The attribute bytes of the tile at the output and of the next one.
    pub shift_back_8: [u8; 2],
    pub NT_byte: u8,
    pub AT_byte: u8,
    pub latch_PT: [u8; 2],
    /// The sprites found for the next scanline; a slot with `y` 0xFF is free.
    pub oam_secondary: [Oam; 8],
    pub sprites: [SpriteUnit; 8],
    /// The number of slots of the secondary memory that are taken.
    pub oam_cur: usize,
}

impl Register {
    /// The registers after the latched tile is loaded: its two pattern
    /// bytes into the upper halves of the shifters, its attribute byte into
    /// both attribute latches.
    pub open spec fn spec_load_shift_reg(self) -> Register {
        Register {
            shift_back_16: spec_array_update(
                spec_array_update(
                    self.shift_back_16,
                    0,
                    (self.shift_back_16[0] & 0b0000_0000_1111_1111) | ((self.latch_PT[0] as u16)
                        << 8),
                ),
                1,
                (self.shift_back_16[1] & 0b0000_0000_1111_1111) | ((self.latch_PT[1] as u16) << 8),
            ),
            shift_back_8: spec_array_update(
                spec_array_update(self.shift_back_8, 0, self.AT_byte),
                1,
                self.AT_byte,
            ),
            ..self
        }
    }

    /// The registers after the background shifters move by one pixel.
    pub open spec fn spec_shift_back_reg(self) -> Register {
        Register {
            shift_back_16: spec_array_update(
                spec_array_update(self.shift_back_16, 0, self.shift_back_16[0] >> 1),
                1,
                self.shift_back_16[1] >> 1,
            ),
            ..self
        }
    }

    /// The registers with all eight slots of the secondary memory free.
    pub open spec fn spec_oam_clear_secondary(self) -> Register {
        Register { oam_secondary: fill8(self.oam_secondary, Oam::free()), oam_cur: 0, ..self }
    }

    /// The registers with every sprite unit one dot nearer to its column.
    pub open spec fn spec_counter_dec(self) -> Register {
        Register { sprites: map8(self.sprites, |u: SpriteUnit| u.count_down()), ..self }
    }

    /// Whether a sprite was taken into the secondary memory, and the
    /// registers after it: it takes the next free slot, if one is left.
    pub open spec fn spec_oam_add(self, oam: Oam) -> (bool, Register) {
        if self.oam_cur < 8 {
            (
                true,
                Register {
                    oam_secondary: spec_array_update(self.oam_secondary, self.oam_cur as int, oam),
                    oam_cur: (self.oam_cur + 1) as usize,
                    ..self
                },
            )
        } else {
            (false, self)
        }
    }

    /// Registers at power-on: shifters and latches zero, the secondary
    /// memory free, the sprite units zero.
    pub open spec fn power_on() -> Register {
        Register {
            shift_back_16: spec_array_fill_for_copy_type::<u16, 2>(0),
            shift_back_8: spec_array_fill_for_copy_type::<u8, 2>(0),
            NT_byte: 0,
            AT_byte: 0,
            latch_PT: spec_array_fill_for_copy_type::<u8, 2>(0),
            oam_secondary: spec_array_fill_for_copy_type::<Oam, 8>(Oam::free()),
            sprites: spec_array_fill_for_copy_type::<SpriteUnit, 8>(
                SpriteUnit { low: 0, high: 0, latch: 0, x: 0, shifted: 0, sprite0: false },
            ),
            oam_cur: 0,
        }
    }

    pub fn new() -> (r: Self)
        ensures
            r == Self::power_on(),
    {
        Self {
            shift_back_16: [0u16;2],
            shift_back_8: [0u8;2],
            NT_byte: 0,
            AT_byte: 0,
            latch_PT: [0u8;2],
            oam_secondary: [Oam::new();8],
            sprites: [SpriteUnit { low: 0, high: 0, latch: 0, x: 0, shifted: 0, sprite0: false };8],
            oam_cur: 0,
        }
    }

    pub fn load_shift_reg(&mut self)
        ensures
            *final(self) == old(self).spec_load_shift_reg(),
    {
        self.shift_back_16[0] = (self.shift_back_16[0] & 0b0000_0000_1111_1111) | ((
        self.latch_PT[0] as u16) << 8);
        self.shift_back_16[1] = (self.shift_back_16[1] & 0b0000_0000_1111_1111) | ((
        self.latch_PT[1] as u16) << 8);
        self.shift_back_8[0] = self.AT_byte;
        self.shift_back_8[1] = self.AT_byte;
        assert(self.shift_back_16 =~= old(self).spec_load_shift_reg().shift_back_16);
        assert(self.shift_back_8 =~= old(self).spec_load_shift_reg().shift_back_8);
    }

    pub fn shift_back_reg(&mut self)
        ensures
            *final(self) == old(self).spec_shift_back_reg(),
    {
        self.shift_back_16[0] = self.shift_back_16[0] >> 1;
        self.shift_back_16[1] = self.shift_back_16[1] >> 1;
        assert(self.shift_back_16 =~= old(self).spec_shift_back_reg().shift_back_16);
    }

    pub fn oam_clear_secondary(&mut self)
        ensures
            *final(self) == old(self).spec_oam_clear_secondary(),
    {
        let mut i: usize = 0;
        while i < 8
            invariant
                i <= 8,
                forall|j: int| 0 <= j < i ==> #[trigger] self.oam_secondary[j] == Oam::free(),
                self.shift_back_16 == old(self).shift_back_16,
                self.shift_back_8 == old(self).shift_back_8,
                self.NT_byte == old(self).NT_byte,
                self.AT_byte == old(self).AT_byte,
                self.latch_PT == old(self).latch_PT,
                self.sprites == old(self).sprites,
            decreases 8 - i,
        {
            self.oam_secondary[i] = Oam::new();
            i += 1;
        }
        self.oam_cur = 0;
        assert(self.oam_secondary =~= old(self).spec_oam_clear_secondary().oam_secondary);
    }

    pub fn counter_dec(&mut self)
        ensures
            *final(self) == old(self).spec_counter_dec(),
    {
        let mut i: usize = 0;
        while i < 8
            invariant
                i <= 8,
                forall|j: int| 0 <= j < i ==> #[trigger] self.sprites[j] == old(self).sprites[j].count_down(),
                forall|j: int| i <= j < 8 ==> #[trigger] self.sprites[j] == old(self).sprites[j],
                self.shift_back_16 == old(self).shift_back_16,
                self.shift_back_8 == old(self).shift_back_8,
                self.NT_byte == old(self).NT_byte,
                self.AT_byte == old(self).AT_byte,
                self.latch_PT == old(self).latch_PT,
                self.oam_secondary == old(self).oam_secondary,
                self.oam_cur == old(self).oam_cur,
            decreases 8 - i,
        {
            if self.sprites[i].x > 0 {
                let mut u = self.sprites[i];
                u.x = u.x - 1;
                self.sprites[i] = u;
            }
            i += 1;
        }
        assert(self.sprites =~= old(self).spec_counter_dec().sprites);
    }

    pub fn oam_add(&mut self, oam: Oam) -> (added: bool)
        ensures
            (added, *final(self)) == old(self).spec_oam_add(oam),
    {
        if self.oam_cur < 8 {
            self.oam_secondary[self.oam_cur] = oam;
            self.oam_cur += 1;
            assert(self.oam_secondary =~= old(self).spec_oam_add(oam).1.oam_secondary);
            true
        } else {
            false
        }
    }
}

} // verus!
