//! The timing of the picture unit: where in the frame a tick leads, and
//! what follows for whole scanlines and whole frames.

use vstd::prelude::*;
use crate::bus::BusView;
use crate::ppu::{PPUView, LAST_DOT, PRERENDER_LINE, VBLANK_LINE};

verus! {

/// The dots of a scanline.
pub const DOTS_PER_LINE: u32 = 341;

/// The scanlines of a frame.
pub const LINES_PER_FRAME: u32 = 262;

/// The dots of a frame.
pub const DOTS_PER_FRAME: u32 = 89342;

/// The scanline that follows a scanline.
pub open spec fn next_line(scanline: u32) -> u32 {
    if scanline >= PRERENDER_LINE {
        0
    } else {
        (scanline + 1) as u32
    }
}

/// The scanline and dot that follow a scanline and dot.
pub open spec fn next_position(scanline: u32, dot: u32) -> (u32, u32) {
    if dot == 0 {
        (scanline, 1)
    } else if dot >= LAST_DOT {
        (next_line(scanline), 0)
    } else {
        (scanline, (dot + 1) as u32)
    }
}

/// The ticks that a scanline still takes from a dot on.
pub open spec fn dots_left(dot: u32) -> nat {
    if dot == 0 {
        341
    } else if dot >= LAST_DOT {
        1
    } else {
        (341 - dot) as nat
    }
}

/// An upper bound on the ticks until a scanline ends with the frame
/// completed on it.
pub open spec fn frame_dots_left(p: PPUView) -> nat {
    if p.scanline_n == PRERENDER_LINE && (p.cycle_n <= 1 || p.frame_finish) {
        dots_left(p.cycle_n)
    } else {
        (dots_left(p.cycle_n) + (262 - next_line(p.scanline_n)) * 341) as nat
    }
}

/// Whether a tick from this state completes a frame: it is the tick of dot
/// 1 of the pre-render scanline.
pub open spec fn completes_frame(p: PPUView) -> bool {
    p.scanline_n == PRERENDER_LINE && p.cycle_n == 1
}

/// Whether a tick from this state begins the vertical blank: it is the
/// tick of dot 1 of scanline 241.
pub open spec fn begins_vblank(p: PPUView) -> bool {
    p.scanline_n == VBLANK_LINE && p.cycle_n == 1
}

/// Where a tick leads, whatever the picture and the bus hold. The scanline
/// and the dot step to the next position; the tick reports the end of the
/// scanline exactly from the last dot; the frame count steps exactly on
/// the tick that completes a frame; the notice of the completed frame is
/// given on that tick, taken back at dot 0 and else kept.
pub proof fn lemma_tick_position(p: PPUView, bus: BusView)
    ensures
        ({
            let (ended, q, _b) = p.spec_tick(bus);
            &&& (q.scanline_n, q.cycle_n) == next_position(p.scanline_n, p.cycle_n)
            &&& ended == (p.cycle_n >= LAST_DOT)
            &&& q.frame_n == if completes_frame(p) {
                p.frame_n.wrapping_add(1)
            } else {
                p.frame_n
            }
            &&& q.frame_finish == if p.cycle_n == 0 {
                false
            } else if completes_frame(p) {
                true
            } else {
                p.frame_finish
            }
        }),
{
    reveal(PPUView::spec_handle_scanline);
    if p.cycle_n != 0 {
        lemma_dot_work_keeps(p, bus);
    }
}

/// Whether two states of the picture unit stand at the same scanline and
/// dot, with the same frame count and notice of the completed frame.
pub open spec fn same_timing(p: PPUView, q: PPUView) -> bool {
    &&& q.scanline_n == p.scanline_n
    &&& q.cycle_n == p.cycle_n
    &&& q.frame_n == p.frame_n
    &&& q.frame_finish == p.frame_finish
}

/// Putting out a pixel leaves the timing as it is.
pub proof fn lemma_render_keeps(p: PPUView, bus: BusView)
    ensures
        same_timing(p, p.spec_scanline_render(bus).0),
{
    reveal(PPUView::spec_scanline_render);
}

/// The background work of a dot leaves the timing as it is.
pub proof fn lemma_fetch_keeps(p: PPUView, bus: BusView)
    ensures
        same_timing(p, p.spec_scanline_fetch(bus).0),
{
    reveal(PPUView::spec_scanline_fetch);
}

/// The sprite work of a dot leaves the timing as it is.
pub proof fn lemma_oam_keeps(p: PPUView, bus: BusView)
    ensures
        same_timing(p, p.spec_oam_handle(bus).0),
{
    reveal(PPUView::spec_oam_handle);
}

/// A dot of a visible scanline leaves the timing as it is.
pub proof fn lemma_visible_keeps(p: PPUView, bus: BusView)
    ensures
        same_timing(p, p.spec_visible_dot(bus).0),
{
    let st_a = if p.work_cycle == 0 {
        PPUView { reg: p.reg.spec_load_shift_reg(), ..p }
    } else {
        p
    };
    lemma_render_keeps(st_a, bus);
    let (st_b, b1) = if p.cycle_n < 257 && p.scanline_n < p.frame.height {
        let (r, b) = st_a.spec_scanline_render(bus);
        (PPUView { reg: r.reg.spec_counter_dec(), ..r }, b)
    } else {
        (st_a, bus)
    };
    lemma_fetch_keeps(st_b, b1);
    let (st_c, b2) = if PPUView::bg_enabled(b1) {
        st_b.spec_scanline_fetch(b1)
    } else {
        (st_b, b1)
    };
    lemma_oam_keeps(st_c, b2);
}

/// The work of a dot leaves the scanline and the dot as they are, and
/// touches the frame count and the notice of the completed frame only on
/// the tick that completes a frame.
pub proof fn lemma_dot_work_keeps(p: PPUView, bus: BusView)
    ensures
        ({
            let (q, _b) = p.spec_dot_work(bus);
            &&& q.scanline_n == p.scanline_n
            &&& q.cycle_n == p.cycle_n
            &&& q.frame_n == if completes_frame(p) {
                p.frame_n.wrapping_add(1)
            } else {
                p.frame_n
            }
            &&& q.frame_finish == (completes_frame(p) || p.frame_finish)
        }),
{
    if p.scanline_n <= 239 {
        lemma_visible_keeps(p, bus);
    } else if p.scanline_n == PRERENDER_LINE {
        let st_a = if p.work_cycle == 0 {
            PPUView { reg: p.reg.spec_load_shift_reg(), ..p }
        } else {
            p
        };
        let (st_b, b) = if p.cycle_n == 1 {
            (
                PPUView { frame_finish: true, frame_n: p.frame_n.wrapping_add(1), ..st_a },
                crate::ppu::with_ppu_mem(
                    bus,
                    bus.ppu_mem.set_interupt(false).set_sprite_0hit(false).set_sprite_overflow(false),
                ),
            )
        } else {
            (st_a, bus)
        };
        let b1 = if p.cycle_n >= 280 && p.cycle_n <= 304 {
            crate::ppu::with_v(b, crate::ppu::vert_eq_of(b.ppu_mem.v, b.ppu_mem.t))
        } else {
            b
        };
        lemma_fetch_keeps(st_b, b1);
    }
}

/// A tick sets the vertical-blank flag, and leaves a request for the CPU,
/// when it begins the vertical blank; no other tick sets the flag.
pub proof fn lemma_tick_vblank(p: PPUView, bus: BusView)
    ensures
        ({
            let (_ended, _q, b) = p.spec_tick(bus);
            &&& begins_vblank(p) ==> b.ppu_mem == bus.ppu_mem.set_interupt(true)
            &&& !begins_vblank(p) && p.scanline_n > 239 && p.scanline_n != PRERENDER_LINE ==> b
                == bus
        }),
{
    reveal(PPUView::spec_handle_scanline);
}

} // verus!

verus! {

impl PPUView {
    /// The picture unit and the bus after `n` ticks of the picture unit,
    /// with nothing else running on the bus.
    pub open spec fn ticks(self, bus: BusView, n: nat) -> (PPUView, BusView)
        decreases n,
    {
        if n == 0 {
            (self, bus)
        } else {
            let (_ended, p, b) = self.spec_tick(bus);
            p.ticks(b, (n - 1) as nat)
        }
    }

    /// How many of the next `n` ticks begin the vertical blank.
    pub open spec fn vblanks_begun(self, bus: BusView, n: nat) -> nat
        decreases n,
    {
        if n == 0 {
            0
        } else {
            let (_ended, p, b) = self.spec_tick(bus);
            (if begins_vblank(self) {
                1nat
            } else {
                0nat
            }) + p.vblanks_begun(b, (n - 1) as nat)
        }
    }

    /// Whether the scanline and the dot lie within a frame.
    pub open spec fn on_grid(self) -> bool {
        self.scanline_n <= PRERENDER_LINE && self.cycle_n <= LAST_DOT
    }

    /// The place of the scanline and dot in the frame, counted in dots.
    pub open spec fn dot_index(self) -> int {
        self.scanline_n * 341 + self.cycle_n
    }
}

/// How many of the `n` dots from place `from` on, around the frame, are the
/// dot at place `at`; for at most a frame of dots.
pub open spec fn visits(from: int, n: nat, at: int) -> nat {
    if (at - from) % 89342 < n {
        1
    } else {
        0
    }
}

/// The place of the dot on which a frame is completed.
pub open spec fn frame_dot() -> int {
    PRERENDER_LINE * 341 + 1
}

/// The place of the dot on which the vertical blank begins.
pub open spec fn vblank_dot() -> int {
    VBLANK_LINE * 341 + 1
}

/// A tick within a frame leads to the next place of the frame, and from
/// the last place to the first.
pub proof fn lemma_grid_step(p: PPUView, bus: BusView)
    requires
        p.on_grid(),
    ensures
        p.spec_tick(bus).1.on_grid(),
        p.spec_tick(bus).1.dot_index() == (p.dot_index() + 1) % 89342,
        completes_frame(p) == (p.dot_index() == frame_dot()),
        begins_vblank(p) == (p.dot_index() == vblank_dot()),
{
    lemma_tick_position(p, bus);
}

/// Counting a dot among `n` dots: the first dot counts if it is the dot,
/// and the rest are counted from the next place on.
pub proof fn lemma_visits_step(from: int, n: nat, at: int)
    requires
        0 <= from < 89342,
        0 <= at < 89342,
        1 <= n <= 89342,
    ensures
        visits(from, n, at) == (if from == at {
            1nat
        } else {
            0nat
        }) + visits((from + 1) % 89342, (n - 1) as nat, at),
{
}

/// The picture unit after `n` ticks, for at most a frame of ticks: it
/// stands `n` places on in the frame; its frame count has stepped once if
/// the dot that completes a frame was among them, and not at all
/// otherwise; and the vertical blank has begun once if its dot was among
/// them.
pub proof fn lemma_grid_ticks(p: PPUView, bus: BusView, n: nat)
    requires
        p.on_grid(),
        n <= 89342,
    ensures
        p.ticks(bus, n).0.on_grid(),
        p.ticks(bus, n).0.dot_index() == (p.dot_index() + n) % 89342,
        p.ticks(bus, n).0.frame_n == if visits(p.dot_index(), n, frame_dot()) == 1 {
            p.frame_n.wrapping_add(1)
        } else {
            p.frame_n
        },
        p.vblanks_begun(bus, n) == visits(p.dot_index(), n, vblank_dot()),
    decreases n,
{
    if n > 0 {
        let (_ended, q, b) = p.spec_tick(bus);
        lemma_grid_step(p, bus);
        lemma_tick_position(p, bus);
        lemma_grid_ticks(q, b, (n - 1) as nat);
        lemma_visits_step(p.dot_index(), n, frame_dot());
        lemma_visits_step(p.dot_index(), n, vblank_dot());
    }
}

/// After 341 ticks the picture unit stands at the same dot of the next
/// scanline, the first scanline following the last.
pub proof fn lemma_scanline_period(p: PPUView, bus: BusView)
    requires
        p.on_grid(),
    ensures
        p.ticks(bus, 341).0.cycle_n == p.cycle_n,
        p.ticks(bus, 341).0.scanline_n == next_line(p.scanline_n),
{
    lemma_grid_ticks(p, bus, 341);
}

/// After 262 scanlines of 341 ticks the picture unit stands where it
/// stood, its frame count has stepped exactly once, and the vertical blank
/// has begun exactly once.
pub proof fn lemma_frame_period(p: PPUView, bus: BusView)
    requires
        p.on_grid(),
    ensures
        p.ticks(bus, 89342).0.cycle_n == p.cycle_n,
        p.ticks(bus, 89342).0.scanline_n == p.scanline_n,
        p.ticks(bus, 89342).0.frame_n == p.frame_n.wrapping_add(1),
        p.vblanks_begun(bus, 89342) == 1,
{
    lemma_grid_ticks(p, bus, 89342);
}

} // verus!
