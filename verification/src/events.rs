//! High-level user-intent messages.
//!
//! A `ViewEvent` is produced by the input translator and consumed exactly
//! once by the view state model within the same frame.  It describes what the
//! user meant, not what the GPU should see.

use vstd::prelude::*;
use crate::rat::{q_pos, q_small, q_wf, Rat, RAT_LIMIT};

verus! {

/// A user-intent message for the view state model.
///
/// `Zoom` and `UnZoom` carry a positive magnification factor.  `Pan` carries
/// a pixel delta, already sign-adjusted by the input translator.
/// `WindowResize` carries the new surface size in pixels.  `Quit` is handled
/// by the frame loop; the view state model ignores it.
#[derive(Clone, Copy, Debug, PartialEq, Eq, Structural)]
pub enum ViewEvent {
    Zoom(Rat),
    UnZoom(Rat),
    Pan(i64, i64),
    WindowResize(i32, i32),
    Quit,
}

/// Events the view state model accepts: zoom factors are positive and in
/// range, pan deltas are in range.  The input translator only emits such
/// events.
pub open spec fn view_event_wf(e: ViewEvent) -> bool {
    match e {
        ViewEvent::Zoom(f) => q_wf(f@) && q_pos(f@) && q_small(f@),
        ViewEvent::UnZoom(f) => q_wf(f@) && q_pos(f@) && q_small(f@),
        ViewEvent::Pan(dx, dy) => -(RAT_LIMIT as int) <= dx <= RAT_LIMIT as int
            && -(RAT_LIMIT as int) <= dy <= RAT_LIMIT as int,
        ViewEvent::WindowResize(_, _) => true,
        ViewEvent::Quit => true,
    }
}

} // verus!
