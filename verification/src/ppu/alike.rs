//! The picture unit on buses that are alike: what it draws, and what it
//! leaves on the bus, is the same, whatever the sound unit has queued or
//! holds in registers that no read shows, and however many frames were
//! completed before.

use vstd::prelude::*;
use crate::bus::{alike, BusView};
use crate::ppu::PPUView;

verus! {

/// Whether two states of the picture unit are the same but for the count
/// of completed frames.
pub open spec fn same_picture_unit(p: PPUView, q: PPUView) -> bool {
    q == (PPUView { frame_n: q.frame_n, ..p })
}

/// Whether a step of the picture unit comes out the same from two states
/// on two buses.
pub open spec fn same_step(x: (PPUView, BusView), y: (PPUView, BusView)) -> bool {
    same_picture_unit(x.0, y.0) && alike(x.1, y.1)
}

pub proof fn lemma_render_alike(p: PPUView, q: PPUView, a: BusView, b: BusView)
    requires
        same_picture_unit(p, q),
        alike(a, b),
    ensures
        same_step(p.spec_scanline_render(a), q.spec_scanline_render(b)),
{
    reveal(PPUView::spec_scanline_render);
}

pub proof fn lemma_fetch_alike(p: PPUView, q: PPUView, a: BusView, b: BusView)
    requires
        same_picture_unit(p, q),
        alike(a, b),
    ensures
        same_step(p.spec_scanline_fetch(a), q.spec_scanline_fetch(b)),
{
    reveal(PPUView::spec_scanline_fetch);
    assert(p.spec_load_SP(a).reg.sprites =~= p.spec_load_SP(b).reg.sprites);
}

pub proof fn lemma_oam_alike(p: PPUView, q: PPUView, a: BusView, b: BusView)
    requires
        same_picture_unit(p, q),
        alike(a, b),
    ensures
        same_step(p.spec_oam_handle(a), q.spec_oam_handle(b)),
{
    reveal(PPUView::spec_oam_handle);
}

pub proof fn lemma_visible_alike(p: PPUView, q: PPUView, a: BusView, b: BusView)
    requires
        same_picture_unit(p, q),
        alike(a, b),
    ensures
        same_step(p.spec_visible_dot(a), q.spec_visible_dot(b)),
{
    let loaded_p = if p.work_cycle == 0 {
        PPUView { reg: p.reg.spec_load_shift_reg(), ..p }
    } else {
        p
    };
    let loaded_q = if q.work_cycle == 0 {
        PPUView { reg: q.reg.spec_load_shift_reg(), ..q }
    } else {
        q
    };
    lemma_render_alike(loaded_p, loaded_q, a, b);
    let (drawn_p, a1) = if p.cycle_n < 257 && p.scanline_n < p.frame.height {
        let (r, t) = loaded_p.spec_scanline_render(a);
        (PPUView { reg: r.reg.spec_counter_dec(), ..r }, t)
    } else {
        (loaded_p, a)
    };
    let (drawn_q, b1) = if q.cycle_n < 257 && q.scanline_n < q.frame.height {
        let (r, t) = loaded_q.spec_scanline_render(b);
        (PPUView { reg: r.reg.spec_counter_dec(), ..r }, t)
    } else {
        (loaded_q, b)
    };
    lemma_fetch_alike(drawn_p, drawn_q, a1, b1);
    let (fetched_p, a2) = if PPUView::bg_enabled(a1) {
        drawn_p.spec_scanline_fetch(a1)
    } else {
        (drawn_p, a1)
    };
    let (fetched_q, b2) = if PPUView::bg_enabled(b1) {
        drawn_q.spec_scanline_fetch(b1)
    } else {
        (drawn_q, b1)
    };
    lemma_oam_alike(fetched_p, fetched_q, a2, b2);
}

pub proof fn lemma_prerender_alike(p: PPUView, q: PPUView, a: BusView, b: BusView)
    requires
        same_picture_unit(p, q),
        alike(a, b),
    ensures
        same_step(p.spec_scanline_261(a), q.spec_scanline_261(b)),
{
    let loaded_p = if p.work_cycle == 0 {
        PPUView { reg: p.reg.spec_load_shift_reg(), ..p }
    } else {
        p
    };
    let loaded_q = if q.work_cycle == 0 {
        PPUView { reg: q.reg.spec_load_shift_reg(), ..q }
    } else {
        q
    };
    let cleared = a.ppu_mem.set_interupt(false).set_sprite_0hit(false).set_sprite_overflow(false);
    let (done_p, a0) = if p.cycle_n == 1 {
        (
            PPUView { frame_finish: true, frame_n: p.frame_n.wrapping_add(1), ..loaded_p },
            crate::ppu::with_ppu_mem(a, cleared),
        )
    } else {
        (loaded_p, a)
    };
    let (done_q, b0) = if q.cycle_n == 1 {
        (
            PPUView { frame_finish: true, frame_n: q.frame_n.wrapping_add(1), ..loaded_q },
            crate::ppu::with_ppu_mem(b, cleared),
        )
    } else {
        (loaded_q, b)
    };
    let a1 = if p.cycle_n >= 280 && p.cycle_n <= 304 {
        crate::ppu::with_v(a0, crate::ppu::vert_eq_of(a0.ppu_mem.v, a0.ppu_mem.t))
    } else {
        a0
    };
    let b1 = if q.cycle_n >= 280 && q.cycle_n <= 304 {
        crate::ppu::with_v(b0, crate::ppu::vert_eq_of(b0.ppu_mem.v, b0.ppu_mem.t))
    } else {
        b0
    };
    lemma_fetch_alike(done_p, done_q, a1, b1);
}

/// A tick of the picture unit comes out the same from states that are the
/// same but for the frame count, on buses that are alike; and it reports
/// the end of the scanline on both or on neither.
pub proof fn lemma_tick_alike(p: PPUView, q: PPUView, a: BusView, b: BusView)
    requires
        same_picture_unit(p, q),
        alike(a, b),
    ensures
        p.spec_tick(a).0 == q.spec_tick(b).0,
        same_picture_unit(p.spec_tick(a).1, q.spec_tick(b).1),
        alike(p.spec_tick(a).2, q.spec_tick(b).2),
        p.spec_tick(a).1.frame == q.spec_tick(b).1.frame,
{
    reveal(PPUView::spec_handle_scanline);
    lemma_visible_alike(p, q, a, b);
    lemma_prerender_alike(p, q, a, b);
}

} // verus!
