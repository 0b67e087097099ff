//! General laws of the view state model, proved once and for all states.
//!
//! Each lemma is stated over the deterministic transition functions of
//! `ViewState` (`step`, `with_ranges`), so it covers every state and event
//! the executable code can produce.  Transitions whose exact result is not
//! representable are skipped by the model; the inverse and aspect laws
//! therefore assume the transitions involved commit.

use vstd::prelude::*;
use crate::events::{view_event_wf, ViewEvent};
use crate::instructions::RenderInstruction;
use crate::panel::{frame_instructions, EditSignals};
use crate::params::FractalParams;
use crate::rat::{
    lemma_mul_pos, lemma_q_add_sub_inverse, lemma_q_div_congruence, lemma_q_eq_trans,
    lemma_q_mul_div_inverse, lemma_q_reduce, lemma_q_sub_congruence, q_add, q_div, q_eq,
    q_from_int, q_mul, q_pos, q_reduce, q_sub, q_wf, Q, Rat,
};
use crate::view_state::{commit, pan_delta, rat_of, representable, ViewState};

verus! {

/// Zooming by a positive factor and then unzooming by the same factor
/// restores the zoom to its prior value, whenever both transitions are
/// representable.
pub proof fn lemma_zoom_unzoom_inverse(s: ViewState, f: Rat)
    requires
        s.wf(),
        view_event_wf(ViewEvent::Zoom(f)),
        representable(q_mul(s.zoom@, f@)),
        representable(q_div(s.step(ViewEvent::Zoom(f)).zoom@, f@)),
    ensures
        q_eq(s.step(ViewEvent::Zoom(f)).step(ViewEvent::UnZoom(f)).zoom@, s.zoom@),
{
    let z = s.zoom@;
    let e1 = q_mul(z, f@);
    lemma_mul_pos(z.den, f@.den);
    lemma_q_reduce(e1);
    let z1 = q_reduce(e1);
    assert(s.step(ViewEvent::Zoom(f)).zoom@ == z1);
    let e2 = q_div(z1, f@);
    lemma_mul_pos(z1.den, f@.num);
    lemma_q_reduce(e2);
    let z2 = q_reduce(e2);
    assert(s.step(ViewEvent::Zoom(f)).step(ViewEvent::UnZoom(f)).zoom@ == z2);
    let d1 = q_div(e1, f@);
    lemma_mul_pos(e1.den, f@.num);
    lemma_q_div_congruence(z1, e1, f@);
    lemma_q_mul_div_inverse(z, f@);
    lemma_q_eq_trans(e2, d1, z);
    lemma_q_eq_trans(z2, e2, z);
}

/// A pan at fixed zoom moves the focus by exactly the pixel delta divided by
/// the viewport extent and the zoom factor, on each axis with a positive
/// viewport extent, whenever the transition is representable.
pub proof fn lemma_pan_moves_focus(s: ViewState, dx: i64, dy: i64)
    requires
        s.wf(),
        view_event_wf(ViewEvent::Pan(dx, dy)),
        s.viewport_width > 0,
        s.viewport_height > 0,
        representable(
            q_add(s.focus_x@, pan_delta(dx as int, s.viewport_width as int, s.zoom@)),
        ),
        representable(
            q_add(s.focus_y@, pan_delta(dy as int, s.viewport_height as int, s.zoom@)),
        ),
    ensures
        q_eq(
            q_sub(s.step(ViewEvent::Pan(dx, dy)).focus_x@, s.focus_x@),
            pan_delta(dx as int, s.viewport_width as int, s.zoom@),
        ),
        q_eq(
            q_sub(s.step(ViewEvent::Pan(dx, dy)).focus_y@, s.focus_y@),
            pan_delta(dy as int, s.viewport_height as int, s.zoom@),
        ),
{
    lemma_pan_axis(s.focus_x@, dx as int, s.viewport_width as int, s.zoom@);
    lemma_pan_axis(s.focus_y@, dy as int, s.viewport_height as int, s.zoom@);
    assert(s.step(ViewEvent::Pan(dx, dy)).focus_x@ == q_reduce(
        q_add(s.focus_x@, pan_delta(dx as int, s.viewport_width as int, s.zoom@)),
    ));
    assert(s.step(ViewEvent::Pan(dx, dy)).focus_y@ == q_reduce(
        q_add(s.focus_y@, pan_delta(dy as int, s.viewport_height as int, s.zoom@)),
    ));
}

/// One axis of the pan law: the committed focus differs from the old focus
/// by exactly the pan delta.
proof fn lemma_pan_axis(focus: Q, d: int, viewport: int, zoom: Q)
    requires
        q_wf(focus),
        q_wf(zoom),
        q_pos(zoom),
        viewport > 0,
    ensures
        ({
            let delta = pan_delta(d, viewport, zoom);
            q_eq(q_sub(q_reduce(q_add(focus, delta)), focus), delta)
        }),
{
    let d1 = q_div(q_from_int(d), q_from_int(viewport));
    let delta = q_div(d1, zoom);
    lemma_mul_pos(d1.den, zoom.num);
    let exact = q_add(focus, delta);
    lemma_mul_pos(focus.den, delta.den);
    lemma_q_reduce(exact);
    lemma_mul_pos(q_reduce(exact).den, focus.den);
    lemma_mul_pos(exact.den, focus.den);
    lemma_q_sub_congruence(q_reduce(exact), exact, focus);
    lemma_q_add_sub_inverse(focus, delta);
    lemma_q_eq_trans(
        q_sub(q_reduce(exact), focus),
        q_sub(exact, focus),
        delta,
    );
}

/// Recomputing the axis ranges is idempotent: a second recomputation with no
/// intervening mutation yields the identical state.
pub proof fn lemma_recompute_idempotent(s: ViewState)
    ensures
        s.with_ranges().with_ranges() == s.with_ranges(),
{
}

/// Under the aspect lock, a resize to a positive surface makes the camera
/// extents match the new surface ratio exactly, whenever the recomputed
/// width is representable.
pub proof fn lemma_resize_preserves_aspect(s: ViewState, w: i32, h: i32)
    requires
        s.wf(),
        s.lock_aspect_ratio,
        w > 0,
        h > 0,
        representable(
            q_mul(q_div(q_from_int(w as int), q_from_int(h as int)), s.camera_height@),
        ),
    ensures
        q_eq(
            q_div(
                s.step(ViewEvent::WindowResize(w, h)).camera_width@,
                s.step(ViewEvent::WindowResize(w, h)).camera_height@,
            ),
            Q { num: w as int, den: h as int },
        ),
{
    let t = s.step(ViewEvent::WindowResize(w, h));
    let ch = s.camera_height@;
    let ratio = q_div(q_from_int(w as int), q_from_int(h as int));
    let exact = q_mul(ratio, ch);
    lemma_mul_pos(ratio.den, ch.den);
    lemma_q_reduce(exact);
    assert(t.camera_width@ == q_reduce(exact));
    assert(t.camera_height@ == ch);
    lemma_mul_pos(exact.den, ch.num);
    lemma_mul_pos(q_reduce(exact).den, ch.num);
    lemma_q_div_congruence(q_reduce(exact), exact, ch);
    lemma_q_mul_div_inverse(ratio, ch);
    lemma_q_eq_trans(q_div(q_reduce(exact), ch), q_div(exact, ch), ratio);
    assert(q_eq(ratio, Q { num: w as int, den: h as int })) by (nonlinear_arith)
        requires
            ratio == (Q { num: (w as int) * 1, den: 1 * (h as int) }),
    ;
    lemma_q_eq_trans(
        q_div(q_reduce(exact), ch),
        ratio,
        Q { num: w as int, den: h as int },
    );
}

/// A resize to a zero-height surface is accepted, records the new viewport
/// size, and leaves both camera extents untouched.
pub proof fn lemma_zero_height_resize_keeps_camera(s: ViewState, w: i32)
    ensures
        s.step(ViewEvent::WindowResize(w, 0)).camera_width == s.camera_width,
        s.step(ViewEvent::WindowResize(w, 0)).camera_height == s.camera_height,
        s.step(ViewEvent::WindowResize(w, 0)).viewport_width == w,
        s.step(ViewEvent::WindowResize(w, 0)).viewport_height == 0,
{
}

/// An event the view state model does not consume leaves every field
/// unchanged.
pub proof fn lemma_unconsumed_event_is_noop(s: ViewState)
    ensures
        s.step(ViewEvent::Quit) == s,
{
}

/// Every frame emits exactly one fractal choice instruction — the selected
/// variant, with its constant when the Julia variant is selected — and never
/// a second, conflicting one.
pub proof fn lemma_frame_emits_one_fractal_choice(
    p: FractalParams,
    s: ViewState,
    e: EditSignals,
    gui_captured_mouse: bool,
)
    ensures
        ({
            let out = frame_instructions(p, s, e, gui_captured_mouse);
            &&& out[1] == RenderInstruction::FractalChoice(p.variant_spec())
            &&& forall|i: int|
                0 <= i < out.len() && out[i] is FractalChoice ==> i == 1
        }),
{
    let out = frame_instructions(p, s, e, gui_captured_mouse);
    assert forall|i: int| 0 <= i < out.len() && out[i] is FractalChoice implies i == 1 by {
        if i != 1 {
            assert(!(out[i] is FractalChoice));
        }
    }
}

} // verus!
