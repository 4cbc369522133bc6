//! The picture unit: a state machine that advances by one dot per tick,
//! 341 dots to a scanline and 262 scanlines to a frame, and puts out one
//! pixel per dot on the visible scanlines.

pub mod alike;
pub mod memory;
pub mod palette;
pub mod register;
pub mod timing;

use vstd::prelude::*;
use crate::bus::{Bus, BusView};
use crate::memory::{zero_bytes, zeros};
use memory::{fold_nametable, Oam, PPUMemoryView};
use palette::{NesColor, Palette, PaletteTooShort};
use register::{map8, tabulate8, Register, SpriteUnit};

verus! {

pub const FRAME_HEIGHT_NTSC: usize = 240;

pub const FRAME_HEIGHT_PAL: usize = 240;

pub const FRAME_WIDTH: usize = 256;

pub const PATTERN_TABLE_ADDR: u16 = 0x0000;

pub const NAMETABLE_ADDR: u16 = 0x2000;

pub const STARTING_SCANLINE: u32 = 0;

/// The last dot of a scanline.
pub const LAST_DOT: u32 = 340;

/// The last visible scanline.
pub const LAST_VISIBLE_LINE: u32 = 239;

/// The scanline on which the vertical blank begins.
pub const VBLANK_LINE: u32 = 241;

/// The last scanline of a frame, on which the next frame is prepared.
pub const PRERENDER_LINE: u32 = 261;

/// A picture: rows of pixels from the top, each pixel four bytes in the
/// order blue, green, red, alpha.
#[derive(Debug)]
pub struct Frame {
    pub width: usize,
    pub height: usize,
    pub pixels: Vec<u8>,
}

/// What a picture holds.
pub struct FrameView {
    pub width: usize,
    pub height: usize,
    pub pixels: Seq<u8>,
}

impl View for Frame {
    type V = FrameView;

    open spec fn view(&self) -> FrameView {
        FrameView { width: self.width, height: self.height, pixels: self.pixels@ }
    }
}

impl FrameView {
    /// The place of the first byte of the pixel in column `x` of row `y`.
    pub open spec fn offset(self, x: int, y: int) -> int {
        (self.width * y + x) * 4
    }

    /// The picture with the pixel in column `x` of row `y` set to an opaque
    /// colour. A pixel outside the picture is dropped.
    pub open spec fn put_pixel(self, x: int, y: int, color: NesColor) -> FrameView {
        let at = self.offset(x, y);
        if 0 <= x < self.width && 0 <= y < self.height && at + 3 < self.pixels.len() {
            FrameView {
                pixels: self.pixels.update(at + 3, 255u8).update(at + 2, color.R).update(
                    at + 1,
                    color.G,
                ).update(at, color.B),
                ..self
            }
        } else {
            self
        }
    }
}

impl Frame {
    /// A picture of `width` by `height` pixels, all bytes 0.
    pub fn new(width: usize, height: usize) -> (r: Self)
        requires
            width * height * 4 <= usize::MAX,
        ensures
            r@ == (FrameView { width, height, pixels: zeros((width * height * 4) as nat) }),
    {
        assert(width * height <= width * height * 4) by (nonlinear_arith)
            requires
                width >= 0,
                height >= 0,
        ;
        Frame { width, height, pixels: zero_bytes(width * height * 4) }
    }

    pub(crate) fn put_pixel(&mut self, x: usize, y: usize, color: NesColor)
        ensures
            final(self)@ == old(self)@.put_pixel(x as int, y as int, color),
    {
        let len: usize = self.pixels.len();
        if x < self.width && y < self.height {
            let at: Option<usize> = match self.width.checked_mul(y) {
                Some(row) => match row.checked_add(x) {
                    Some(p) => p.checked_mul(4),
                    None => None,
                },
                None => None,
            };
            proof {
                let w = self.width as int;
                assert(0 <= w * y) by (nonlinear_arith)
                    requires
                        0 <= w,
                        0 <= y,
                ;
            }
            match at {
                Some(at) => {
                    if at < len && len - at > 3 {
                        self.pixels[at + 3] = 255;
                        self.pixels[at + 2] = color.R;
                        self.pixels[at + 1] = color.G;
                        self.pixels[at] = color.B;
                    }
                },
                None => {},
            }
        }
    }

    /// The bytes of the picture.
    pub fn get_texture_buffer(&self) -> (r: &Vec<u8>)
        ensures
            r@ == self@.pixels,
    {
        &self.pixels
    }

    /// Sets every byte of the picture to 0.
    pub fn clear(&mut self)
        ensures
            final(self)@ == (FrameView { pixels: zeros(old(self)@.pixels.len()), ..old(self)@ }),
    {
        let n: usize = self.pixels.len();
        self.pixels = zero_bytes(n);
    }
}

#[derive(Debug, Copy, Clone)]
pub struct PPUInfo {
    pub frame_w: usize,
    pub frame_h: usize,
}

#[derive(Debug, Copy, Clone)]
pub enum PPUEvent {
    FrameFinish,
    ScanlineFinish,
}

pub struct PPU {
    pub palette: Palette,
    pub frame: Frame,
    pub scanline_n: u32,
    /// The dot within the scanline.
    pub cycle_n: u32,
    /// The phase within the eight-dot fetch cycle.
    pub work_cycle: u32,
    pub reg: Register,
    /// Whether the frame was completed on the running scanline.
    pub frame_finish: bool,
    /// The number of frames completed.
    pub frame_n: u32,
    /// The next sprite that the evaluation looks at.
    pub cur_oam: usize,
    /// Whether the evaluation has found more than eight sprites.
    pub sprite_overflow: bool,
    pub oam_offset: usize,
}

/// What the picture unit holds.
pub struct PPUView {
    pub palette: Palette,
    pub frame: FrameView,
    pub scanline_n: u32,
    pub cycle_n: u32,
    pub work_cycle: u32,
    pub reg: Register,
    pub frame_finish: bool,
    pub frame_n: u32,
    pub cur_oam: usize,
    pub sprite_overflow: bool,
    pub oam_offset: usize,
}

impl View for PPU {
    type V = PPUView;

    open spec fn view(&self) -> PPUView {
        PPUView {
            palette: self.palette,
            frame: self.frame@,
            scanline_n: self.scanline_n,
            cycle_n: self.cycle_n,
            work_cycle: self.work_cycle,
            reg: self.reg,
            frame_finish: self.frame_finish,
            frame_n: self.frame_n,
            cur_oam: self.cur_oam,
            sprite_overflow: self.sprite_overflow,
            oam_offset: self.oam_offset,
        }
    }
}

/// A byte with its bits in the opposite order.
pub open spec fn reversed(v: u8) -> u8 {
    ((v & 0b0000_0001) << 7) | ((v & 0b0000_0010) << 5) | ((v & 0b0000_0100) << 3) | ((v
        & 0b0000_1000) << 1) | ((v & 0b0001_0000) >> 1) | ((v & 0b0010_0000) >> 3) | ((v
        & 0b0100_0000) >> 5) | ((v & 0b1000_0000) >> 7)
}

/// The video address one tile to the right: coarse X steps, and from 31 it
/// wraps to 0 and switches the horizontal nametable.
pub open spec fn hori_inc_of(v: u16) -> u16 {
    if v & 0x001F == 31 {
        (v & !0x001Fu16) ^ 0x0400
    } else {
        v.wrapping_add(1)
    }
}

/// The video address one pixel row down: fine Y steps; from 7 it wraps to 0
/// and coarse Y steps, which from 29 wraps to 0 and switches the vertical
/// nametable, and from 31 wraps to 0 without a switch.
pub open spec fn vert_inc_of(v: u16) -> u16 {
    if (v & 0x7000) != 0x7000 {
        v.wrapping_add(0x1000)
    } else {
        let w: u16 = v & !0x7000u16;
        let y: u16 = (w & 0x03E0) >> 5;
        if y == 29 {
            ((w ^ 0x0800) & !0x03E0u16)
        } else if y == 31 {
            w & !0x03E0u16
        } else {
            (w & !0x03E0u16) | (((y + 1) as u16) << 5)
        }
    }
}

/// The video address with its horizontal part (coarse X and the horizontal
/// nametable bit) taken from `t`.
pub open spec fn hori_eq_of(v: u16, t: u16) -> u16 {
    (t & 0b0000_0100_0001_1111) | (v & 0b1111_1011_1110_0000)
}

/// The video address with its vertical part (fine Y, coarse Y and the
/// vertical nametable bit) taken from `t`.
pub open spec fn vert_eq_of(v: u16, t: u16) -> u16 {
    (t & 0b0111_1011_1110_0000) | (v & 0b1000_0100_0001_1111)
}

/// The address of the nametable byte of the tile at `v`.
pub open spec fn nt_addr(v: u16) -> u16 {
    0x2000 | (v & 0x0FFF)
}

/// The address of the attribute byte of the tile at `v`.
pub open spec fn at_addr(v: u16) -> u16 {
    0x23C0 | (v & 0x0C00) | ((v >> 4) & 0x38) | ((v >> 2) & 0x07)
}

/// The address of the low pattern byte of tile `nt_byte` in the row that
/// the fine Y of `v` selects, in the background pattern table that bit 4 of
/// the control register selects.
pub open spec fn pt_addr(nt_byte: u8, v: u16, ctrl: u8) -> u16 {
    (((nt_byte as u16) << 4) | ((v & 0b0111_0000_0000_0000) >> 12)) | (((ctrl & 0b0001_0000) as u16)
        << 8)
}

/// What the sprite units put out at a dot: the palette entry of the
/// winning pixel, whether it goes in front of the background, whether
/// sprite 0 contributed, and whether any unit had an opaque pixel.
pub struct SpritePick {
    pub color: u8,
    pub priority: bool,
    pub sprite0: bool,
    pub found: bool,
}

impl SpritePick {
    pub open spec fn none() -> SpritePick {
        SpritePick { color: 0, priority: false, sprite0: false, found: false }
    }

    /// The pick after one more unit is looked at. An active unit with an
    /// opaque pixel takes over unless a unit before it was found that goes
    /// in front of the background.
    pub open spec fn step(self, u: SpriteUnit) -> SpritePick {
        if u.active() && u.pixel() != 0 && (!self.found || !self.priority) {
            SpritePick {
                color: u.pixel() | ((u.latch & 3) << 2) | 0x10,
                priority: u.latch & 0b0010_0000 == 0,
                sprite0: self.sprite0 || u.sprite0,
                found: true,
            }
        } else {
            self
        }
    }

    /// The pick over the first `n` units.
    pub open spec fn upto(sprites: [SpriteUnit; 8], n: int) -> SpritePick
        decreases n,
    {
        if n <= 0 {
            SpritePick::none()
        } else {
            SpritePick::upto(sprites, n - 1).step(sprites[n - 1])
        }
    }
}

/// A unit after a dot: an active unit has shifted out one pixel.
pub open spec fn unit_after_dot(u: SpriteUnit) -> SpriteUnit {
    if u.active() {
        u.shift()
    } else {
        u
    }
}

/// The palette entry shown for the byte read from the palette memory: its
/// low six bits, of which greyscale (bit 0 of the mask) keeps only the
/// upper two.
pub open spec fn shown_entry(byte: u8, mask: u8) -> u8 {
    if mask & 1 != 0 {
        (byte % 64) & 0x30
    } else {
        byte % 64
    }
}

/// The palette cell that is shown at a dot: that of the sprite where the
/// sprite pixel goes in front and is opaque, or the background is
/// transparent; else that of the background.
pub open spec fn chosen_cell(bg: usize, opaque_bg: bool, pick: SpritePick) -> usize {
    if (pick.priority && pick.color != 0) || !opaque_bg {
        pick.color as usize
    } else {
        bg
    }
}

/// The row of a sprite at `y` that falls on `scanline`; 0 above the sprite.
pub open spec fn sprite_row(scanline: u32, y: u8) -> usize {
    if scanline >= y {
        (scanline - y) as usize
    } else {
        0
    }
}

/// The address of the low pattern byte of the row of a sprite that falls
/// on `scanline`. In 8x8 mode bit 3 of the control register selects the
/// pattern table; in 8x16 mode bit 0 of the tile number does, and rows 8
/// to 15 come from the next tile. Bit 7 of the attribute flips the sprite
/// vertically.
pub open spec fn sprite_pattern_addr(oam: Oam, scanline: u32, ctrl: u8) -> usize {
    let mode_16 = ctrl & 0b0010_0000 != 0;
    let row = sprite_row(scanline, oam.y);
    let tile_base: usize = if !mode_16 {
        ((oam.tile as u16) << 4) as usize
    } else {
        (((oam.tile as u16) & 0b1111_1110) << 4) as usize
    };
    let table: usize = if (!mode_16 && ctrl & 0b0000_1000 != 0) || (mode_16 && oam.tile & 1 == 1) {
        0x1000
    } else {
        0
    };
    let flipped = oam.attr & 0b1000_0000 != 0;
    let line: usize = if flipped {
        (7 - (row % 8)) as usize
    } else {
        row % 8
    };
    let bottom = if flipped && mode_16 {
        !(row >= 8)
    } else {
        row >= 8
    };
    (tile_base + table + line + if bottom {
        16usize
    } else {
        0usize
    }) as usize
}

/// The sprite unit that shows a slot of the secondary memory on the next
/// scanline; an idle unit for a free slot. The pattern bytes are put in
/// with the leftmost pixel at bit 0, which takes a reversal unless bit 6 of
/// the attribute flips the sprite horizontally.
pub open spec fn sprite_unit_for(oam: Oam, scanline: u32, bus: BusView) -> SpriteUnit {
    if oam.y != 0xFF {
        let addr = sprite_pattern_addr(oam, scanline, bus.ppu_mem.ctrl);
        let lo = bus.ppu_read(addr);
        let hi = bus.ppu_read((addr + 8) as usize);
        let flip = oam.attr & 0b0100_0000 != 0;
        SpriteUnit {
            low: if flip {
                lo
            } else {
                reversed(lo)
            },
            high: if flip {
                hi
            } else {
                reversed(hi)
            },
            latch: oam.attr,
            x: oam.x,
            shifted: 0,
            sprite0: oam.is_sprite0,
        }
    } else {
        SpriteUnit::idle()
    }
}

/// The bus with the video address of the picture unit set.
pub open spec fn with_v(bus: BusView, v: u16) -> BusView {
    BusView { ppu_mem: PPUMemoryView { v, ..bus.ppu_mem }, ..bus }
}

/// The bus with the registers of the picture unit replaced.
pub open spec fn with_ppu_mem(bus: BusView, ppu_mem: PPUMemoryView) -> BusView {
    BusView { ppu_mem, ..bus }
}

#[allow(non_snake_case)]
impl PPUView {
    /// The picture unit at power-on: at dot 0 of scanline 0, with a black
    /// palette and a black picture of 256 by 240 pixels.
    pub open spec fn power_on(palette: Palette) -> PPUView {
        PPUView {
            palette,
            frame: FrameView {
                width: FRAME_WIDTH,
                height: FRAME_HEIGHT_NTSC,
                pixels: zeros((FRAME_WIDTH * FRAME_HEIGHT_NTSC * 4) as nat),
            },
            scanline_n: STARTING_SCANLINE,
            cycle_n: 0,
            work_cycle: 0,
            reg: Register::power_on(),
            frame_finish: false,
            frame_n: 0,
            cur_oam: 0,
            sprite_overflow: false,
            oam_offset: 0,
        }
    }

    /// Whether background rendering is on, by bit 3 of the mask.
    pub open spec fn bg_enabled(bus: BusView) -> bool {
        bus.ppu_mem.mask & 0b0000_1000 != 0
    }

    /// Whether sprite rendering is on, by bit 4 of the mask.
    pub open spec fn sprites_enabled(bus: BusView) -> bool {
        bus.ppu_mem.mask & 0b0001_0000 != 0
    }

    /// Whether the scanline is one on which tiles are fetched: a visible
    /// one or the pre-render one.
    pub open spec fn on_render_line(self) -> bool {
        self.scanline_n <= LAST_VISIBLE_LINE || self.scanline_n == PRERENDER_LINE
    }

    /// The background pixel at the output: its palette cell and whether it
    /// is opaque. Fine X selects the bit of the shifters; the attribute
    /// byte is that of the next tile where fine X reaches into it, and the
    /// two bits of it are those of the quadrant that the tile lies in.
    pub open spec fn spec_bg_color(self, bus: BusView) -> (usize, bool) {
        let x: u16 = (bus.ppu_mem.x & 7) as u16;
        let pixel: u16 = ((self.reg.shift_back_16[0] >> x) & 1) | (((self.reg.shift_back_16[1] >> x)
            & 1) << 1);
        if pixel != 0 {
            let next = (self.work_cycle % 8) + x >= 8;
            let base: u16 = ((0x2000u16 | (bus.ppu_mem.v & 0x0FFF)) - 2) as u16;
            let addr: u16 = if next {
                (base + 1) as u16
            } else {
                base
            };
            let attr: u8 = if next {
                self.reg.shift_back_8[1]
            } else {
                self.reg.shift_back_8[0]
            };
            let folded = fold_nametable(bus.ppu_mem.mirroring_type, addr as usize);
            let shift: u8 = if folded & 0x40 != 0 {
                if folded & 2 != 0 {
                    6
                } else {
                    4
                }
            } else {
                if folded & 2 != 0 {
                    2
                } else {
                    0
                }
            };
            ((pixel | ((((attr >> shift) & 3) as u16) << 2)) as usize, true)
        } else {
            (0usize, false)
        }
    }

    /// What the sprite units put out at a dot, and the picture unit after
    /// the active units have shifted.
    pub open spec fn spec_sprite_color(self) -> (SpritePick, PPUView) {
        (
            SpritePick::upto(self.reg.sprites, 8),
            PPUView {
                reg: Register {
                    sprites: map8(self.reg.sprites, |u: SpriteUnit| unit_after_dot(u)),
                    ..self.reg
                },
                ..self
            },
        )
    }

    /// One pixel: background and sprite pixels are found, where their
    /// rendering is on; an opaque pixel of sprite 0 over an opaque
    /// background sets the sprite-0-hit flag; and the colour of the chosen
    /// palette cell goes to the picture at the dot's place.
    #[verifier::opaque]
    pub open spec fn spec_scanline_render(self, bus: BusView) -> (PPUView, BusView) {
        let (bg, opaque_bg) = if Self::bg_enabled(bus) {
            self.spec_bg_color(bus)
        } else {
            (0usize, false)
        };
        let (pick, p) = if Self::sprites_enabled(bus) {
            self.spec_sprite_color()
        } else {
            (SpritePick::none(), self)
        };
        let cell = chosen_cell(bg, opaque_bg, pick);
        let entry = shown_entry(bus.ppu_read((0x3F00 + cell) as usize), bus.ppu_mem.mask);
        let color = self.palette.color[entry as int];
        (
            PPUView {
                frame: self.frame.put_pixel(self.cycle_n - 1, self.scanline_n as int, color),
                ..p
            },
            if pick.sprite0 && opaque_bg {
                with_ppu_mem(bus, bus.ppu_mem.set_sprite_0hit(true))
            } else {
                bus
            },
        )
    }

    /// The start of a sprite evaluation: the secondary memory is freed.
    pub open spec fn spec_oam_clear(self) -> PPUView {
        PPUView {
            reg: self.reg.spec_oam_clear_secondary(),
            sprite_overflow: false,
            cur_oam: 0,
            oam_offset: 0,
            ..self
        }
    }

    /// Whether a sprite at `sprite_y` covers the scanline, and whether with
    /// its second tile: with one of its rows 0 to 7, or, in 8x16 mode (bit 5
    /// of the control register), with one of its rows 8 to 15.
    pub open spec fn spec_sprite_y_in_range(self, bus: BusView, sprite_y: u8) -> (bool, bool) {
        let max: u32 = if bus.ppu_mem.ctrl & 0b0010_0000 != 0 {
            16
        } else {
            8
        };
        if self.scanline_n >= sprite_y && self.scanline_n < sprite_y + 8 {
            (true, false)
        } else if self.scanline_n >= sprite_y && self.scanline_n < sprite_y + max {
            (true, true)
        } else {
            (false, false)
        }
    }

    /// The sprite of the sprite memory that the evaluation looks at.
    pub open spec fn sprite_at(self, bus: BusView) -> Oam {
        Oam {
            y: bus.ppu_mem.oam_read(self.cur_oam as int, (self.oam_offset % 4) as int),
            tile: bus.ppu_mem.oam_read(self.cur_oam as int, 1),
            attr: bus.ppu_mem.oam_read(self.cur_oam as int, 2),
            x: bus.ppu_mem.oam_read(self.cur_oam as int, 3),
            is_sprite0: self.cur_oam == 0,
        }
    }

    /// One step of the sprite evaluation: the next of the 64 sprites is
    /// looked at and, where it covers the scanline, taken into the
    /// secondary memory. A sprite in range that finds the memory full sets
    /// the sprite-overflow flag.
    pub open spec fn spec_oam_write_secondary(self, bus: BusView) -> (PPUView, BusView) {
        if self.cur_oam < 64 {
            let oam = self.sprite_at(bus);
            let (in_range, _second) = self.spec_sprite_y_in_range(bus, oam.y);
            let (reg, overflow) = if !self.sprite_overflow && in_range {
                let (added, r) = self.reg.spec_oam_add(oam);
                (r, !added)
            } else {
                (self.reg, self.sprite_overflow)
            };
            let p = PPUView {
                reg,
                sprite_overflow: overflow,
                cur_oam: (self.cur_oam + 1) as usize,
                ..self
            };
            if overflow {
                if in_range {
                    (p, with_ppu_mem(bus, bus.ppu_mem.set_sprite_overflow(true)))
                } else {
                    (PPUView { oam_offset: ((self.oam_offset % 4 + 1) % 4) as usize, ..p }, bus)
                }
            } else {
                (p, bus)
            }
        } else {
            (self, bus)
        }
    }

    /// The sprite work of a dot: at dot 1 the secondary memory is freed; on
    /// the even dots from 66 to 256 the evaluation takes a step; on dots
    /// 257 to 320 the sprite address is held at 0.
    #[verifier::opaque]
    pub open spec fn spec_oam_handle(self, bus: BusView) -> (PPUView, BusView) {
        if self.cycle_n == 1 {
            (self.spec_oam_clear(), bus)
        } else {
            let (p, b) = if self.cycle_n % 2 == 0 && self.cycle_n >= 65 && self.cycle_n <= 256 {
                self.spec_oam_write_secondary(bus)
            } else {
                (self, bus)
            };
            if self.cycle_n >= 257 && self.cycle_n <= 320 {
                (p, with_ppu_mem(b, PPUMemoryView { oam_addr: 0, ..b.ppu_mem }))
            } else {
                (p, b)
            }
        }
    }

    /// The sprite fetch: every sprite unit is loaded for the slot of the
    /// secondary memory at its place.
    pub open spec fn spec_load_SP(self, bus: BusView) -> PPUView {
        PPUView {
            reg: Register {
                sprites: tabulate8(
                    self.reg.sprites,
                    |i: int| sprite_unit_for(self.reg.oam_secondary[i], self.scanline_n, bus),
                ),
                ..self.reg
            },
            ..self
        }
    }

    /// The memory access of a phase of the fetch cycle: the nametable byte
    /// in phase 1, the attribute byte in phase 3, the low pattern byte in
    /// phase 5 and the high one, eight bytes on, in phase 7; the pattern
    /// bytes are latched with the leftmost pixel at bit 0.
    pub open spec fn spec_fetch_phase(self, bus: BusView) -> PPUView {
        let v = bus.ppu_mem.v;
        if self.work_cycle == 1 {
            PPUView { reg: Register { NT_byte: bus.ppu_read(nt_addr(v) as usize), ..self.reg }, ..self }
        } else if self.work_cycle == 3 {
            PPUView { reg: Register { AT_byte: bus.ppu_read(at_addr(v) as usize), ..self.reg }, ..self }
        } else if self.work_cycle == 5 {
            PPUView {
                reg: Register {
                    latch_PT: vstd::array::spec_array_update(
                        self.reg.latch_PT,
                        0,
                        reversed(
                            bus.ppu_read(pt_addr(self.reg.NT_byte, v, bus.ppu_mem.ctrl) as usize),
                        ),
                    ),
                    ..self.reg
                },
                ..self
            }
        } else if self.work_cycle == 7 {
            PPUView {
                reg: Register {
                    latch_PT: vstd::array::spec_array_update(
                        self.reg.latch_PT,
                        1,
                        reversed(
                            bus.ppu_read(
                                (pt_addr(self.reg.NT_byte, v, bus.ppu_mem.ctrl) as usize + 8) as usize,
                            ),
                        ),
                    ),
                    ..self.reg
                },
                ..self
            }
        } else {
            self
        }
    }

    /// The background work of a dot. On dots 1 to 257 and 321 to 336 the
    /// fetch cycle runs; in its last phase the video address moves one
    /// tile to the right, except at dot 256, where it moves one row down,
    /// and at dot 257 its horizontal part is taken from `t` again. At dot
    /// 320 the sprite units are loaded.
    #[verifier::opaque]
    pub open spec fn spec_scanline_fetch(self, bus: BusView) -> (PPUView, BusView) {
        if self.cycle_n < 258 || (self.cycle_n > 320 && self.cycle_n <= 336) {
            let v0 = bus.ppu_mem.v;
            let v1 = if self.cycle_n == 256 {
                vert_inc_of(v0)
            } else {
                v0
            };
            let v2 = if self.cycle_n == 257 {
                hori_eq_of(v1, bus.ppu_mem.t)
            } else {
                v1
            };
            let v3 = if self.work_cycle == 7 && self.cycle_n != 256 {
                hori_inc_of(v2)
            } else {
                v2
            };
            (self.spec_fetch_phase(with_v(bus, v3)), with_v(bus, v3))
        } else if self.cycle_n == 320 {
            (self.spec_load_SP(bus), bus)
        } else {
            (self, bus)
        }
    }

    /// A dot of a scanline in the vertical blank or behind the picture: at
    /// dot 1 of scanline 241 the vertical-blank flag is set.
    pub open spec fn spec_scanline_vblank(self, bus: BusView) -> BusView {
        if self.cycle_n == 1 && self.scanline_n == VBLANK_LINE {
            with_ppu_mem(bus, bus.ppu_mem.set_interupt(true))
        } else {
            bus
        }
    }

    /// A dot of the pre-render scanline: the latched tile is loaded into the
    /// shifters at the start of each fetch cycle, as on a visible scanline;
    /// at dot 1 the frame is complete and the flags of vertical blank,
    /// sprite-0 hit and sprite overflow are cleared; with background
    /// rendering on, the vertical part of the video address is taken from
    /// `t` on dots 280 to 304, and tiles are fetched as on a visible
    /// scanline.
    pub open spec fn spec_scanline_261(self, bus: BusView) -> (PPUView, BusView) {
        let st_a = if self.work_cycle == 0 {
            PPUView { reg: self.reg.spec_load_shift_reg(), ..self }
        } else {
            self
        };
        let (p, b) = if self.cycle_n == 1 {
            (
                PPUView { frame_finish: true, frame_n: self.frame_n.wrapping_add(1), ..st_a },
                with_ppu_mem(
                    bus,
                    bus.ppu_mem.set_interupt(false).set_sprite_0hit(false).set_sprite_overflow(false),
                ),
            )
        } else {
            (st_a, bus)
        };
        if Self::bg_enabled(b) {
            let b1 = if self.cycle_n >= 280 && self.cycle_n <= 304 {
                with_v(b, vert_eq_of(b.ppu_mem.v, b.ppu_mem.t))
            } else {
                b
            };
            p.spec_scanline_fetch(b1)
        } else {
            (p, b)
        }
    }

    /// A dot of a visible scanline: at the start of each fetch cycle the
    /// latched tile is loaded into the shifters; on dots 1 to 256 of a row
    /// of the picture a pixel is put out and the sprite units count down;
    /// then come the background and sprite work, where their rendering is
    /// on.
    pub open spec fn spec_visible_dot(self, bus: BusView) -> (PPUView, BusView) {
        let st_a = if self.work_cycle == 0 {
            PPUView { reg: self.reg.spec_load_shift_reg(), ..self }
        } else {
            self
        };
        let (st_b, b1) = if self.cycle_n < 257 && self.scanline_n < self.frame.height {
            let (p, b) = st_a.spec_scanline_render(bus);
            (PPUView { reg: p.reg.spec_counter_dec(), ..p }, b)
        } else {
            (st_a, bus)
        };
        let (st_c, b2) = if Self::bg_enabled(b1) {
            st_b.spec_scanline_fetch(b1)
        } else {
            (st_b, b1)
        };
        if Self::sprites_enabled(b2) {
            st_c.spec_oam_handle(b2)
        } else {
            (st_c, b2)
        }
    }

    /// The work of a dot by its scanline.
    pub open spec fn spec_dot_work(self, bus: BusView) -> (PPUView, BusView) {
        if self.scanline_n <= LAST_VISIBLE_LINE {
            self.spec_visible_dot(bus)
        } else if self.scanline_n == PRERENDER_LINE {
            self.spec_scanline_261(bus)
        } else {
            (self, self.spec_scanline_vblank(bus))
        }
    }

    /// The picture unit after the work of a dot is done: on the dots that
    /// put out or prefetch pixels the background shifters move; the phase
    /// of the fetch cycle steps; and behind the last dot the next scanline
    /// begins, the first one after the last. The flag tells whether the
    /// scanline has ended.
    pub open spec fn spec_advance(self) -> (bool, PPUView) {
        let shifted = if self.on_render_line() && ((self.cycle_n > 0 && self.cycle_n <= 256) || (
        self.cycle_n > 320 && self.cycle_n <= 336)) {
            self.reg.spec_shift_back_reg()
        } else {
            self.reg
        };
        if self.cycle_n >= LAST_DOT {
            (
                true,
                PPUView {
                    reg: shifted,
                    cycle_n: 0,
                    work_cycle: 0,
                    scanline_n: if self.scanline_n >= PRERENDER_LINE {
                        0
                    } else {
                        (self.scanline_n + 1) as u32
                    },
                    ..self
                },
            )
        } else {
            (
                false,
                PPUView { reg: shifted, work_cycle: (self.work_cycle.wrapping_add(1) % 8) as u32, ..self },
            )
        }
    }

    /// A dot that is not dot 0: its work, then the advance. The flag tells
    /// whether the scanline has ended.
    #[verifier::opaque]
    pub open spec fn spec_handle_scanline(self, bus: BusView) -> (bool, PPUView, BusView) {
        let (p, b) = self.spec_dot_work(bus);
        let (ended, q) = p.spec_advance();
        (ended, q, b)
    }

    /// One tick: whether it ended the scanline, and the picture unit and
    /// the bus after it. Dot 0 is idle: it only takes back the notice of
    /// the completed frame. Every other dot does its work; the dot counter
    /// steps unless the scanline has ended, which puts it back to 0.
    pub open spec fn spec_tick(self, bus: BusView) -> (bool, PPUView, BusView) {
        if self.cycle_n == 0 {
            (false, PPUView { frame_finish: false, cycle_n: 1, ..self }, bus)
        } else {
            let (ended, p, b) = self.spec_handle_scanline(bus);
            if ended {
                (true, p, b)
            } else {
                (false, PPUView { cycle_n: p.cycle_n.wrapping_add(1), ..p }, b)
            }
        }
    }
}

/// A byte with its bits in the opposite order.
pub fn revert_bits(v: u8) -> (r: u8)
    ensures
        r == reversed(v),
{
    ((v & 0b0000_0001) << 7) | ((v & 0b0000_0010) << 5) | ((v & 0b0000_0100) << 3) | ((v
        & 0b0000_1000) << 1) | ((v & 0b0001_0000) >> 1) | ((v & 0b0010_0000) >> 3) | ((v
        & 0b0100_0000) >> 5) | ((v & 0b1000_0000) >> 7)
}

#[allow(non_snake_case)]
impl PPU {
    pub fn new() -> (r: Self)
        ensures
            r@ == PPUView::power_on(Palette::black()),
    {
        Self {
            palette: Palette::new(),
            frame: Frame::new(FRAME_WIDTH, FRAME_HEIGHT_NTSC),
            scanline_n: STARTING_SCANLINE,
            cycle_n: 0,
            work_cycle: 0,
            reg: Register::new(),
            frame_finish: false,
            frame_n: 0,
            cur_oam: 0,
            sprite_overflow: false,
            oam_offset: 0,
        }
    }

    /// A reset leaves the picture unit as it is.
    pub fn reset(&mut self)
        ensures
            *final(self) == *old(self),
    {
    }

    /// Replaces the master palette by the 64 colours that raw bytes hold.
    /// Fails, and changes nothing, exactly when there are fewer than 192
    /// bytes.
    pub fn load_palette(&mut self, bytes: &[u8]) -> (r: Result<(), PaletteTooShort>)
        ensures
            match r {
                Ok(_) => bytes@.len() >= 192 && final(self).palette.holds(bytes@) && final(self)@
                    == (PPUView { palette: final(self).palette, ..old(self)@ }),
                Err(e) => bytes@.len() < 192 && e.len == bytes@.len() && final(self)@ == old(self)@,
            },
    {
        self.palette.change_from_bytes(bytes)
    }

    /// Whether the frame was completed on the running scanline.
    pub fn get_frame_status(&self) -> (r: bool)
        ensures
            r == self@.frame_finish,
    {
        self.frame_finish
    }

    pub fn get_frame(&self) -> (r: &Frame)
        ensures
            r@ == self@.frame,
    {
        &self.frame
    }

    /// The scanline and the dot.
    pub fn get_cycles_info(&self) -> (r: (u32, u32))
        ensures
            r == (self@.scanline_n, self@.cycle_n),
    {
        (self.scanline_n, self.cycle_n)
    }

    pub fn render_info(&self) -> (r: PPUInfo)
        ensures
            r.frame_w == self@.frame.width,
            r.frame_h == self@.frame.height,
    {
        PPUInfo { frame_w: self.frame.width, frame_h: self.frame.height }
    }

    fn bg_color(&self, bus: &Bus) -> (r: (usize, bool))
        ensures
            r == self@.spec_bg_color(bus@),
    {
        let low3: u8 = bus.ppu_mem.x;
        assert((low3 & 7) as u16 <= 7) by (bit_vector);
        let x: u16 = (low3 & 7) as u16;
        let pixel: u16 = ((self.reg.shift_back_16[0] >> x) & 1) | (((self.reg.shift_back_16[1] >> x)
            & 1) << 1);
        if pixel != 0 {
            let v: u16 = bus.ppu_mem.v;
            assert(0x2000u16 | (v & 0x0FFF) >= 0x2000) by (bit_vector);
            assert(0x2000u16 | (v & 0x0FFF) <= 0x2FFF) by (bit_vector);
            let next: bool = (self.work_cycle % 8) + x as u32 >= 8;
            let base: u16 = (0x2000u16 | (v & 0x0FFF)) - 2;
            let addr: u16 = if next {
                base + 1
            } else {
                base
            };
            let attr: u8 = if next {
                self.reg.shift_back_8[1]
            } else {
                self.reg.shift_back_8[0]
            };
            let folded: usize = bus.ppu_mem.mirroring(addr as usize);
            let shift: u8 = if folded & 0x40 != 0 {
                if folded & 2 != 0 {
                    6
                } else {
                    4
                }
            } else {
                if folded & 2 != 0 {
                    2
                } else {
                    0
                }
            };
            ((pixel | ((((attr >> shift) & 3) as u16) << 2)) as usize, true)
        } else {
            (0, false)
        }
    }

    fn sprite_color(&mut self) -> (r: (u8, bool, bool))
        ensures
            (
                SpritePick { color: r.0, priority: r.1, sprite0: r.2, found: r.0 != 0 },
                final(self)@,
            ) == old(self)@.spec_sprite_color(),
    {
        let mut color: u8 = 0;
        let mut priority: bool = false;
        let mut sprite0: bool = false;
        let mut found: bool = false;
        let mut i: usize = 0;
        while i < 8
            invariant
                i <= 8,
                (SpritePick { color, priority, sprite0, found }) == SpritePick::upto(
                    old(self).reg.sprites,
                    i as int,
                ),
                found == (color != 0),
                forall|j: int|
                    0 <= j < i ==> #[trigger] self.reg.sprites[j] == unit_after_dot(
                        old(self).reg.sprites[j],
                    ),
                forall|j: int| i <= j < 8 ==> #[trigger] self.reg.sprites[j] == old(self).reg.sprites[j],
                self@ == (PPUView {
                    reg: Register { sprites: self.reg.sprites, ..old(self).reg },
                    ..old(self)@
                }),
            decreases 8 - i,
        {
            let mut u: SpriteUnit = self.reg.sprites[i];
            if u.x == 0 && u.shifted < 8 {
                let pixel: u8 = (u.low & 1) | ((u.high & 1) << 1);
                if pixel != 0 && (!found || !priority) {
                    if u.sprite0 {
                        sprite0 = true;
                    }
                    color = pixel | ((u.latch & 3) << 2) | 0x10;
                    priority = u.latch & 0b0010_0000 == 0;
                    found = true;
                    let latch: u8 = u.latch;
                    assert((pixel | ((latch & 3) << 2) | 0x10) != 0) by (bit_vector);
                }
                u.low = u.low >> 1;
                u.high = u.high >> 1;
                u.shifted = u.shifted + 1;
                self.reg.sprites[i] = u;
            }
            i += 1;
        }
        assert(self.reg.sprites =~= map8(old(self).reg.sprites, |u: SpriteUnit| unit_after_dot(u)));
        (color, priority, sprite0)
    }

    fn scanline_render(&mut self, bus: &mut Bus)
        requires
            old(self).cycle_n >= 1,
        ensures
            (final(self)@, final(bus)@) == old(self)@.spec_scanline_render(old(bus)@),
    {
        proof {
            reveal(PPUView::spec_scanline_render);
        }
        let mask: u8 = bus.ppu_mem.read_mask();
        let (bg, opaque_bg) = if mask & 0b0000_1000 != 0 {
            self.bg_color(bus)
        } else {
            (0, false)
        };
        let (sp, priority, sprite0) = if mask & 0b0001_0000 != 0 {
            self.sprite_color()
        } else {
            (0, false, false)
        };
        let cell: usize = if (priority && sp != 0) || !opaque_bg {
            sp as usize
        } else {
            bg
        };
        proof {
            let (g, _o) = old(self)@.spec_bg_color(old(bus)@);
            assert(g <= 0xFFFF);
        }
        let byte: u8 = bus.ppu_read(0x3F00 + cell);
        let entry: u8 = if mask & 1 != 0 {
            (byte % 64) & 0x30
        } else {
            byte % 64
        };
        assert(((byte % 64) & 0x30) < 64) by (bit_vector);
        let color: NesColor = self.palette.color[entry as usize];
        if sprite0 && opaque_bg {
            bus.ppu_mem.set_sprite_0hit(true);
        }
        self.frame.put_pixel((self.cycle_n - 1) as usize, self.scanline_n as usize, color);
    }

    fn oam_clear(&mut self)
        ensures
            final(self)@ == old(self)@.spec_oam_clear(),
    {
        self.reg.oam_clear_secondary();
        self.sprite_overflow = false;
        self.cur_oam = 0;
        self.oam_offset = 0;
    }

    fn sprite_y_in_range(&self, bus: &Bus, sprite_y: u8) -> (r: (bool, bool))
        ensures
            r == self@.spec_sprite_y_in_range(bus@, sprite_y),
    {
        let max: u32 = if bus.ppu_mem.read_ctrl() & 0b0010_0000 != 0 {
            16
        } else {
            8
        };
        let y: u32 = sprite_y as u32;
        if self.scanline_n >= y && self.scanline_n < y + 8 {
            (true, false)
        } else if self.scanline_n >= y && self.scanline_n < y + max {
            (true, true)
        } else {
            (false, false)
        }
    }

    fn oam_write_secondary(&mut self, bus: &mut Bus)
        ensures
            (final(self)@, final(bus)@) == old(self)@.spec_oam_write_secondary(old(bus)@),
    {
        if self.cur_oam < 64 {
            let sprite_y: u8 = bus.ppu_mem.oam_read(self.cur_oam, self.oam_offset % 4);
            let (in_range, _second) = self.sprite_y_in_range(bus, sprite_y);
            if !self.sprite_overflow && in_range {
                let added: bool = self.reg.oam_add(
                    Oam {
                        y: sprite_y,
                        tile: bus.ppu_mem.oam_read(self.cur_oam, 1),
                        attr: bus.ppu_mem.oam_read(self.cur_oam, 2),
                        x: bus.ppu_mem.oam_read(self.cur_oam, 3),
                        is_sprite0: self.cur_oam == 0,
                    },
                );
                self.sprite_overflow = !added;
            }
            self.cur_oam += 1;
            if self.sprite_overflow {
                if in_range {
                    bus.ppu_mem.set_sprite_overflow(true);
                } else {
                    self.oam_offset = (self.oam_offset % 4 + 1) % 4;
                }
            }
        }
    }

    fn oam_handle(&mut self, bus: &mut Bus)
        ensures
            (final(self)@, final(bus)@) == old(self)@.spec_oam_handle(old(bus)@),
    {
        proof {
            reveal(PPUView::spec_oam_handle);
        }
        if self.cycle_n == 1 {
            self.oam_clear();
        } else {
            if self.cycle_n % 2 == 0 && self.cycle_n >= 65 && self.cycle_n <= 256 {
                self.oam_write_secondary(bus);
            }
            if self.cycle_n >= 257 && self.cycle_n <= 320 {
                bus.ppu_mem.oam_addr = 0x0;
            }
        }
    }

    /// The sprite unit for a slot of the secondary memory.
    fn load_unit(&self, bus: &Bus, oam: Oam) -> (r: SpriteUnit)
        ensures
            r == sprite_unit_for(oam, self@.scanline_n, bus@),
    {
        if oam.y != 0xFF {
            let ctrl: u8 = bus.ppu_mem.read_ctrl();
            let mode_16: bool = ctrl & 0b0010_0000 != 0;
            let row: usize = if self.scanline_n >= oam.y as u32 {
                (self.scanline_n - oam.y as u32) as usize
            } else {
                0
            };
            let tile_base: usize = if !mode_16 {
                ((oam.tile as u16) << 4) as usize
            } else {
                (((oam.tile as u16) & 0b1111_1110) << 4) as usize
            };
            let table: usize = if (!mode_16 && ctrl & 0b0000_1000 != 0) || (mode_16 && oam.tile & 1
                == 1) {
                0x1000
            } else {
                0
            };
            let flipped: bool = oam.attr & 0b1000_0000 != 0;
            let line: usize = if flipped {
                7 - (row % 8)
            } else {
                row % 8
            };
            let bottom: bool = if flipped && mode_16 {
                !(row >= 8)
            } else {
                row >= 8
            };
            let addr: usize = tile_base + table + line + if bottom {
                16
            } else {
                0
            };
            let lo: u8 = bus.ppu_read(addr);
            let hi: u8 = bus.ppu_read(addr + 8);
            let flip: bool = oam.attr & 0b0100_0000 != 0;
            SpriteUnit {
                low: if flip {
                    lo
                } else {
                    revert_bits(lo)
                },
                high: if flip {
                    hi
                } else {
                    revert_bits(hi)
                },
                latch: oam.attr,
                x: oam.x,
                shifted: 0,
                sprite0: oam.is_sprite0,
            }
        } else {
            SpriteUnit { low: 0, high: 0, latch: 0, x: 0xFF, shifted: 0, sprite0: false }
        }
    }

    fn load_SP(&mut self, bus: &Bus)
        ensures
            final(self)@ == old(self)@.spec_load_SP(bus@),
    {
        let mut i: usize = 0;
        while i < 8
            invariant
                i <= 8,
                forall|j: int|
                    0 <= j < i ==> #[trigger] self.reg.sprites[j] == sprite_unit_for(
                        old(self).reg.oam_secondary[j],
                        old(self).scanline_n,
                        bus@,
                    ),
                self@ == (PPUView {
                    reg: Register { sprites: self.reg.sprites, ..old(self).reg },
                    ..old(self)@
                }),
            decreases 8 - i,
        {
            let oam: Oam = self.reg.oam_secondary[i];
            let u: SpriteUnit = self.load_unit(bus, oam);
            self.reg.sprites[i] = u;
            i += 1;
        }
        assert(self.reg.sprites =~= old(self)@.spec_load_SP(bus@).reg.sprites);
    }

    fn hori_inc(&mut self, bus: &mut Bus)
        ensures
            final(bus)@ == with_v(old(bus)@, hori_inc_of(old(bus)@.ppu_mem.v)),
            *final(self) == *old(self),
    {
        if bus.ppu_mem.v & 0x001F == 31 {
            bus.ppu_mem.v = (bus.ppu_mem.v & !0x001Fu16) ^ 0x0400;
        } else {
            bus.ppu_mem.v = bus.ppu_mem.v.wrapping_add(1);
        }
    }

    fn vert_inc(&mut self, bus: &mut Bus)
        ensures
            final(bus)@ == with_v(old(bus)@, vert_inc_of(old(bus)@.ppu_mem.v)),
            *final(self) == *old(self),
    {
        let v: u16 = bus.ppu_mem.v;
        if (v & 0x7000) != 0x7000 {
            bus.ppu_mem.v = v.wrapping_add(0x1000);
        } else {
            let w: u16 = v & !0x7000u16;
            let y: u16 = (w & 0x03E0) >> 5;
            assert((w & 0x03E0) >> 5 <= 31) by (bit_vector);
            if y == 29 {
                bus.ppu_mem.v = (w ^ 0x0800) & !0x03E0u16;
            } else if y == 31 {
                bus.ppu_mem.v = w & !0x03E0u16;
            } else {
                bus.ppu_mem.v = (w & !0x03E0u16) | ((y + 1) << 5);
            }
        }
    }

    fn hori_eq(&mut self, bus: &mut Bus)
        ensures
            final(bus)@ == with_v(old(bus)@, hori_eq_of(old(bus)@.ppu_mem.v, old(bus)@.ppu_mem.t)),
            *final(self) == *old(self),
    {
        bus.ppu_mem.v = (bus.ppu_mem.t & 0b0000_0100_0001_1111) | (bus.ppu_mem.v
            & 0b1111_1011_1110_0000);
    }

    fn vert_eq(&mut self, bus: &mut Bus)
        ensures
            final(bus)@ == with_v(old(bus)@, vert_eq_of(old(bus)@.ppu_mem.v, old(bus)@.ppu_mem.t)),
            *final(self) == *old(self),
    {
        bus.ppu_mem.v = (bus.ppu_mem.t & 0b0111_1011_1110_0000) | (bus.ppu_mem.v
            & 0b1000_0100_0001_1111);
    }

    fn read_NT_byte(&mut self, bus: &Bus)
        ensures
            final(self)@ == (PPUView {
                reg: Register { NT_byte: bus@.ppu_read(nt_addr(bus@.ppu_mem.v) as usize), ..old(self).reg },
                ..old(self)@
            }),
    {
        let addr: u16 = 0x2000 | (bus.ppu_mem.v & 0x0FFF);
        self.reg.NT_byte = bus.ppu_read(addr as usize);
    }

    fn read_AT_byte(&mut self, bus: &Bus)
        ensures
            final(self)@ == (PPUView {
                reg: Register { AT_byte: bus@.ppu_read(at_addr(bus@.ppu_mem.v) as usize), ..old(self).reg },
                ..old(self)@
            }),
    {
        let v: u16 = bus.ppu_mem.v;
        let addr: u16 = 0x23C0 | (v & 0x0C00) | ((v >> 4) & 0x38) | ((v >> 2) & 0x07);
        self.reg.AT_byte = bus.ppu_read(addr as usize);
    }

    fn read_PT_low(&mut self, bus: &Bus)
        ensures
            final(self)@ == (PPUView {
                reg: Register {
                    latch_PT: vstd::array::spec_array_update(
                        old(self).reg.latch_PT,
                        0,
                        reversed(
                            bus@.ppu_read(
                                pt_addr(old(self).reg.NT_byte, bus@.ppu_mem.v, bus@.ppu_mem.ctrl) as usize,
                            ),
                        ),
                    ),
                    ..old(self).reg
                },
                ..old(self)@
            }),
    {
        let addr: u16 = (((self.reg.NT_byte as u16) << 4) | ((bus.ppu_mem.v
            & 0b0111_0000_0000_0000) >> 12)) | (((bus.ppu_mem.read_ctrl() & 0b0001_0000) as u16)
            << 8);
        self.reg.latch_PT[0] = revert_bits(bus.ppu_read(addr as usize));
        assert(self.reg.latch_PT =~= vstd::array::spec_array_update(
            old(self).reg.latch_PT,
            0,
            reversed(bus@.ppu_read(addr as usize)),
        ));
    }

    fn read_PT_high(&mut self, bus: &Bus)
        ensures
            final(self)@ == (PPUView {
                reg: Register {
                    latch_PT: vstd::array::spec_array_update(
                        old(self).reg.latch_PT,
                        1,
                        reversed(
                            bus@.ppu_read(
                                (pt_addr(old(self).reg.NT_byte, bus@.ppu_mem.v, bus@.ppu_mem.ctrl) as usize
                                    + 8) as usize,
                            ),
                        ),
                    ),
                    ..old(self).reg
                },
                ..old(self)@
            }),
    {
        let addr: u16 = (((self.reg.NT_byte as u16) << 4) | ((bus.ppu_mem.v
            & 0b0111_0000_0000_0000) >> 12)) | (((bus.ppu_mem.read_ctrl() & 0b0001_0000) as u16)
            << 8);
        self.reg.latch_PT[1] = revert_bits(bus.ppu_read(addr as usize + 8));
        assert(self.reg.latch_PT =~= vstd::array::spec_array_update(
            old(self).reg.latch_PT,
            1,
            reversed(bus@.ppu_read((addr as usize + 8) as usize)),
        ));
    }

    fn scanline_fetch(&mut self, bus: &mut Bus)
        ensures
            (final(self)@, final(bus)@) == old(self)@.spec_scanline_fetch(old(bus)@),
    {
        proof {
            reveal(PPUView::spec_scanline_fetch);
        }
        if self.cycle_n < 258 || (self.cycle_n > 320 && self.cycle_n <= 336) {
            if self.cycle_n == 256 {
                self.vert_inc(bus);
            }
            if self.cycle_n == 257 {
                self.hori_eq(bus);
            }
            if self.work_cycle == 1 {
                self.read_NT_byte(bus);
            } else if self.work_cycle == 3 {
                self.read_AT_byte(bus);
            } else if self.work_cycle == 5 {
                self.read_PT_low(bus);
            } else if self.work_cycle == 7 {
                if self.cycle_n != 256 {
                    self.hori_inc(bus);
                }
                self.read_PT_high(bus);
            }
        } else if self.cycle_n == 320 {
            self.load_SP(bus);
        }
    }

    fn scanline_vblank(&mut self, bus: &mut Bus)
        ensures
            final(bus)@ == old(self)@.spec_scanline_vblank(old(bus)@),
            *final(self) == *old(self),
    {
        if self.cycle_n == 1 && self.scanline_n == VBLANK_LINE {
            bus.ppu_mem.set_interupt(true);
        }
    }

    fn scanline_261(&mut self, bus: &mut Bus)
        ensures
            (final(self)@, final(bus)@) == old(self)@.spec_scanline_261(old(bus)@),
    {
        if self.work_cycle == 0 {
            self.reg.load_shift_reg();
        }
        if self.cycle_n == 1 {
            self.frame_finish = true;
            self.frame_n = self.frame_n.wrapping_add(1);
            bus.ppu_mem.set_interupt(false);
            bus.ppu_mem.set_sprite_0hit(false);
            bus.ppu_mem.set_sprite_overflow(false);
        }
        if bus.ppu_mem.read_mask() & 0b0000_1000 != 0 {
            if self.cycle_n >= 280 && self.cycle_n <= 304 {
                self.vert_eq(bus);
            }
            self.scanline_fetch(bus);
        }
    }

    fn visible_dot(&mut self, bus: &mut Bus)
        requires
            old(self).cycle_n >= 1,
        ensures
            (final(self)@, final(bus)@) == old(self)@.spec_visible_dot(old(bus)@),
    {
        if self.work_cycle == 0 {
            self.reg.load_shift_reg();
        }
        if self.cycle_n < 257 && (self.scanline_n as usize) < self.frame.height {
            self.scanline_render(bus);
            self.reg.counter_dec();
        }
        if bus.ppu_mem.read_mask() & 0b0000_1000 != 0 {
            self.scanline_fetch(bus);
        }
        if bus.ppu_mem.read_mask() & 0b0001_0000 != 0 {
            self.oam_handle(bus);
        }
    }

    fn handle_scanline(&mut self, bus: &mut Bus) -> (ended: bool)
        requires
            old(self).cycle_n >= 1,
        ensures
            (ended, final(self)@, final(bus)@) == old(self)@.spec_handle_scanline(old(bus)@),
            !ended ==> final(self).cycle_n < LAST_DOT,
    {
        proof {
            reveal(PPUView::spec_handle_scanline);
        }
        if self.scanline_n <= LAST_VISIBLE_LINE {
            self.visible_dot(bus);
        } else if self.scanline_n == PRERENDER_LINE {
            self.scanline_261(bus);
        } else {
            self.scanline_vblank(bus);
        }
        if (self.scanline_n <= LAST_VISIBLE_LINE || self.scanline_n == PRERENDER_LINE) && ((
        self.cycle_n > 0 && self.cycle_n <= 256) || (self.cycle_n > 320 && self.cycle_n <= 336)) {
            self.reg.shift_back_reg();
        }
        if self.cycle_n >= LAST_DOT {
            self.cycle_n = 0;
            self.work_cycle = 0;
            self.scanline_n = if self.scanline_n >= PRERENDER_LINE {
                0
            } else {
                self.scanline_n + 1
            };
            true
        } else {
            self.work_cycle = self.work_cycle.wrapping_add(1) % 8;
            false
        }
    }

    /// Advances the picture unit by one dot; true when the scanline has
    /// ended.
    pub fn tick(&mut self, bus: &mut Bus) -> (ended: bool)
        ensures
            (ended, final(self)@, final(bus)@) == old(self)@.spec_tick(old(bus)@),
    {
        if self.cycle_n == 0 {
            self.frame_finish = false;
            self.cycle_n = 1;
            false
        } else if self.handle_scanline(bus) {
            true
        } else {
            self.cycle_n = self.cycle_n.wrapping_add(1);
            false
        }
    }
}

} // verus!

verus! {

/// The edge of the diagnostic picture of one nametable, in cells.
pub const DEBUG_CELLS: usize = 32;

/// The master palette entry that the diagnostic picture shows for a
/// nametable byte: the byte modulo 64, with entry 63 in place of entry 36.
pub open spec fn debug_entry(byte: u8) -> int {
    if byte % 64 == 36 {
        63
    } else {
        (byte % 64) as int
    }
}

impl PPUView {
    /// The picture after the first `n` cells of a diagnostic picture of the
    /// nametable at `nametable` are drawn, row by row: one pixel for each
    /// byte, in the colour of the master palette that the byte names.
    pub open spec fn debug_drawn(
        self,
        bus: BusView,
        nametable: usize,
        x_offset: usize,
        y_offset: usize,
        n: nat,
    ) -> FrameView
        decreases n,
    {
        if n == 0 {
            self.frame
        } else {
            let i = (n - 1) as int;
            self.debug_drawn(bus, nametable, x_offset, y_offset, (n - 1) as nat).put_pixel(
                x_offset + i % 32,
                y_offset + i / 32,
                self.palette.color[debug_entry(bus.ppu_read((nametable + i) as usize))],
            )
        }
    }

    /// The picture unit after the diagnostic picture of one nametable is
    /// drawn into its picture.
    pub open spec fn debug_draw_nametable(
        self,
        bus: BusView,
        nametable: usize,
        x_offset: usize,
        y_offset: usize,
    ) -> PPUView {
        PPUView { frame: self.debug_drawn(bus, nametable, x_offset, y_offset, 1024), ..self }
    }

    /// The picture unit after the diagnostic pictures of the four
    /// nametables are drawn, two by two, each 35 pixels from the next.
    pub open spec fn debug_show_nametable(self, bus: BusView) -> PPUView {
        self.debug_draw_nametable(bus, 0x2000, 0, 0).debug_draw_nametable(
            bus,
            0x2400,
            35,
            0,
        ).debug_draw_nametable(bus, 0x2800, 0, 35).debug_draw_nametable(bus, 0x2C00, 35, 35)
    }
}

impl PPU {
    /// Draws the diagnostic picture of the nametable at `nametable` with its
    /// upper left corner at the given place of the picture.
    pub fn debug_draw_nametable(
        &mut self,
        bus: &Bus,
        nametable: usize,
        x_offset: usize,
        y_offset: usize,
    )
        requires
            nametable <= usize::MAX - 1024,
            x_offset <= usize::MAX - 32,
            y_offset <= usize::MAX - 32,
        ensures
            final(self)@ == old(self)@.debug_draw_nametable(bus@, nametable, x_offset, y_offset),
    {
        let mut i: usize = 0;
        while i < DEBUG_CELLS * DEBUG_CELLS
            invariant
                i <= 1024,
                nametable <= usize::MAX - 1024,
                x_offset <= usize::MAX - 32,
                y_offset <= usize::MAX - 32,
                self@ == (PPUView {
                    frame: old(self)@.debug_drawn(bus@, nametable, x_offset, y_offset, i as nat),
                    ..old(self)@
                }),
            decreases 1024 - i,
        {
            let byte: u8 = bus.ppu_read(nametable + i);
            let entry: usize = if byte % 64 == 36 {
                63
            } else {
                (byte % 64) as usize
            };
            let color: NesColor = self.palette.color[entry];
            self.frame.put_pixel(x_offset + i % DEBUG_CELLS, y_offset + i / DEBUG_CELLS, color);
            i += 1;
        }
    }

    /// Draws the diagnostic picture of all four nametables.
    pub fn debug_show_nametable(&mut self, bus: &Bus)
        ensures
            final(self)@ == old(self)@.debug_show_nametable(bus@),
    {
        self.debug_draw_nametable(bus, 0x2000, 0, 0);
        self.debug_draw_nametable(bus, 0x2400, 35, 0);
        self.debug_draw_nametable(bus, 0x2800, 0, 35);
        self.debug_draw_nametable(bus, 0x2C00, 35, 35);
    }
}

} // verus!

verus! {

impl crate::clock::Clock<bool> for PPU {
    fn tick(&mut self, bus: &mut Bus) -> (ended: bool)
        ensures
            (ended, final(self)@, final(bus)@) == old(self)@.spec_tick(old(bus)@),
    {
        PPU::tick(self, bus)
    }
}

} // verus!
