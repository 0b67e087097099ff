//! The per-frame event drain.
//!
//! Once per frame, every pending raw platform event is translated and its
//! view events are applied to the model, in order.  A `Quit` stops the drain
//! at once: events translated earlier in the batch have already been applied
//! and remain valid, no later event is processed, and the caller must not
//! start another frame.

use vstd::prelude::*;
use crate::events::{view_event_wf, ViewEvent};
use crate::input::{InputHandler, RawEvent};
use crate::view_state::ViewState;

verus! {

/// The state and liveness after applying a batch of view events in order,
/// stopping at the first `Quit` without consuming anything after it.
pub open spec fn delivered(s: ViewState, events: Seq<ViewEvent>) -> (ViewState, bool)
    decreases events.len(),
{
    if events.len() == 0 {
        (s, true)
    } else if events[0] is Quit {
        (s, false)
    } else {
        delivered(s.step(events[0]), events.drop_first())
    }
}

/// The translator state, view state and liveness after draining a batch of
/// raw platform events: each raw event is translated, its view events are
/// delivered, and a `Quit` stops the drain immediately.
pub open spec fn drained(h: InputHandler, s: ViewState, raws: Seq<RawEvent>) -> (
    InputHandler,
    ViewState,
    bool,
)
    decreases raws.len(),
{
    if raws.len() == 0 {
        (h, s, true)
    } else {
        let (h1, events) = h.translated(raws[0]);
        let (s1, alive) = delivered(s, events);
        if alive {
            drained(h1, s1, raws.drop_first())
        } else {
            (h1, s1, false)
        }
    }
}

/// Apply one translated batch of view events to the model, in order,
/// stopping at the first `Quit`.  Returns whether the frame loop should keep
/// running.
fn deliver_events(state: &mut ViewState, events: &Vec<ViewEvent>) -> (alive: bool)
    requires
        old(state).wf(),
        forall|i: int| 0 <= i < events@.len() ==> view_event_wf(#[trigger] events@[i]),
    ensures
        *final(state) == delivered(*old(state), events@).0,
        alive == delivered(*old(state), events@).1,
        final(state).wf(),
{
    let ghost orig = *state;
    proof {
        assert(events@.skip(0) =~= events@);
    }
    let mut j: usize = 0;
    while j < events.len()
        invariant
            0 <= j <= events@.len(),
            orig == *old(state),
            state.wf(),
            forall|i: int| 0 <= i < events@.len() ==> view_event_wf(#[trigger] events@[i]),
            delivered(orig, events@) == delivered(*state, events@.skip(j as int)),
        decreases events@.len() - j,
    {
        proof {
            assert(events@.skip(j as int)[0] == events@[j as int]);
            assert(events@.skip(j as int).drop_first() =~= events@.skip(j as int + 1));
        }
        let ghost s_top = *state;
        match &events[j] {
            ViewEvent::Quit => {
                proof {
                    assert(delivered(s_top, events@.skip(j as int)) == (s_top, false));
                }
                return false;
            },
            e => {
                state.apply(e);
                proof {
                    assert(delivered(s_top, events@.skip(j as int)) == delivered(
                        *state,
                        events@.skip(j as int + 1),
                    ));
                }
            },
        }
        j = j + 1;
    }
    proof {
        assert(events@.skip(events@.len() as int) =~= Seq::<ViewEvent>::empty());
    }
    true
}

/// Drain one frame's batch of raw platform events: translate each event and
/// apply the resulting view events to the model, in the order produced.
/// Returns false as soon as a `Quit` is seen; the caller then finishes the
/// current frame and stops the loop.
pub fn process_events(
    handler: &mut InputHandler,
    state: &mut ViewState,
    raw_events: &Vec<RawEvent>,
) -> (keep_running: bool)
    requires
        old(state).wf(),
    ensures
        *final(handler) == drained(*old(handler), *old(state), raw_events@).0,
        *final(state) == drained(*old(handler), *old(state), raw_events@).1,
        keep_running == drained(*old(handler), *old(state), raw_events@).2,
        final(state).wf(),
{
    let ghost orig_h = *handler;
    let ghost orig_s = *state;
    proof {
        assert(raw_events@.skip(0) =~= raw_events@);
    }
    let mut i: usize = 0;
    while i < raw_events.len()
        invariant
            0 <= i <= raw_events@.len(),
            orig_h == *old(handler),
            orig_s == *old(state),
            state.wf(),
            drained(orig_h, orig_s, raw_events@) == drained(
                *handler,
                *state,
                raw_events@.skip(i as int),
            ),
        decreases raw_events@.len() - i,
    {
        proof {
            assert(raw_events@.skip(i as int)[0] == raw_events@[i as int]);
            assert(raw_events@.skip(i as int).drop_first() =~= raw_events@.skip(i as int + 1));
        }
        let ghost h_top = *handler;
        let ghost s_top = *state;
        let events = handler.handle_input(&raw_events[i]);
        let alive = deliver_events(state, &events);
        proof {
            assert(h_top.translated(raw_events@[i as int]) == (*handler, events@));
            assert(delivered(s_top, events@) == (*state, alive));
            assert(drained(h_top, s_top, raw_events@.skip(i as int)) == (if alive {
                drained(*handler, *state, raw_events@.skip(i as int + 1))
            } else {
                (*handler, *state, false)
            }));
        }
        if !alive {
            return false;
        }
        i = i + 1;
    }
    proof {
        assert(raw_events@.skip(raw_events@.len() as int) =~= Seq::<RawEvent>::empty());
    }
    true
}

} // verus!
