//! The input translator: raw platform events in, view events out.
//!
//! The translator keeps only transient button and key state.  Each raw event
//! yields zero or more view events, synchronously; unrecognized raw events
//! yield nothing, which is not an error.

use vstd::prelude::*;
use crate::events::{view_event_wf, ViewEvent};
use crate::rat::Rat;

verus! {

/// The keys the translator reacts to; every other key is `Other`.
#[derive(Clone, Copy, Debug, PartialEq, Eq, Structural)]
pub enum Key {
    Escape,
    W,
    A,
    S,
    D,
    Equals,
    Minus,
    Other,
}

/// The mouse buttons the translator distinguishes.
#[derive(Clone, Copy, Debug, PartialEq, Eq, Structural)]
pub enum MouseButton {
    Left,
    Other,
}

/// A raw platform event, reduced to the plain values the translator reads.
/// The windowing layer converts its own event type into this one.
#[derive(Clone, Copy, Debug, PartialEq, Eq, Structural)]
pub enum RawEvent {
    Quit,
    KeyDown(Key),
    KeyUp(Key),
    MouseWheel { y: i32 },
    MouseButtonDown(MouseButton),
    MouseButtonUp(MouseButton),
    MouseMotion { xrel: i32, yrel: i32 },
    WindowResized { width: i32, height: i32 },
    Other,
}

/// The fixed zoom factor per wheel tick or zoom key press: 1.1.  The factor
/// is a constant on purpose, not proportional to the wheel delta.
pub open spec fn zoom_step() -> Rat {
    Rat { num: 11, den: 10 }
}

/// Pixels of focus translation per held directional key, per key event.
pub const KEY_PAN_STEP: i32 = 10;

/// Translates raw platform events into view events, keeping the transient
/// drag flag and held directional-key state.
#[derive(Clone, Copy, Debug, PartialEq, Eq, Structural)]
pub struct InputHandler {
    /// Set while the left mouse button is held; mouse motion pans only then.
    pub left_btn_down: bool,
    /// Current keyboard-driven pan step along each axis.
    pub translation_x: i32,
    pub translation_y: i32,
}

impl InputHandler {
    /// The startup translator state: nothing held.
    pub open spec fn initial() -> InputHandler {
        InputHandler { left_btn_down: false, translation_x: 0, translation_y: 0 }
    }

    /// The translator state and emitted view events after one raw event.
    ///
    /// Quit or Escape emits `Quit`.  A wheel tick with a positive vertical
    /// delta emits `Zoom(1.1)`, any other tick emits `UnZoom(1.1)`.  The
    /// directional keys update the held-key pan state and emit a pan; the
    /// zoom keys emit zooms.  Mouse motion while the left button is held
    /// emits a pan with the horizontal delta inverted, so dragging right
    /// moves the visible world left.  A window resize is forwarded.  Every
    /// other raw event leaves the state unchanged and emits nothing.
    pub open spec fn translated(self, e: RawEvent) -> (InputHandler, Seq<ViewEvent>) {
        match e {
            RawEvent::Quit => (self, seq![ViewEvent::Quit]),
            RawEvent::KeyDown(Key::Escape) => (self, seq![ViewEvent::Quit]),
            RawEvent::MouseWheel { y } => (
                self,
                if y > 0 {
                    seq![ViewEvent::Zoom(zoom_step())]
                } else {
                    seq![ViewEvent::UnZoom(zoom_step())]
                },
            ),
            RawEvent::KeyDown(Key::W) => {
                let h = InputHandler { translation_y: KEY_PAN_STEP, ..self };
                (h, seq![ViewEvent::Pan(h.translation_x as i64, h.translation_y as i64)])
            },
            RawEvent::KeyDown(Key::S) => {
                let h = InputHandler { translation_y: (-KEY_PAN_STEP) as i32, ..self };
                (h, seq![ViewEvent::Pan(h.translation_x as i64, h.translation_y as i64)])
            },
            RawEvent::KeyDown(Key::A) => {
                let h = InputHandler { translation_x: (-KEY_PAN_STEP) as i32, ..self };
                (h, seq![ViewEvent::Pan(h.translation_x as i64, h.translation_y as i64)])
            },
            RawEvent::KeyDown(Key::D) => {
                let h = InputHandler { translation_x: KEY_PAN_STEP, ..self };
                (h, seq![ViewEvent::Pan(h.translation_x as i64, h.translation_y as i64)])
            },
            RawEvent::KeyDown(Key::Equals) => (self, seq![ViewEvent::Zoom(zoom_step())]),
            RawEvent::KeyDown(Key::Minus) => (self, seq![ViewEvent::UnZoom(zoom_step())]),
            RawEvent::KeyDown(Key::Other) => (self, Seq::empty()),
            RawEvent::KeyUp(Key::W) => (
                InputHandler { translation_y: 0, ..self },
                Seq::empty(),
            ),
            RawEvent::KeyUp(Key::S) => (
                InputHandler { translation_y: 0, ..self },
                Seq::empty(),
            ),
            RawEvent::KeyUp(Key::A) => (
                InputHandler { translation_x: 0, ..self },
                Seq::empty(),
            ),
            RawEvent::KeyUp(Key::D) => (
                InputHandler { translation_x: 0, ..self },
                Seq::empty(),
            ),
            RawEvent::KeyUp(_) => (self, Seq::empty()),
            RawEvent::MouseButtonDown(MouseButton::Left) => (
                InputHandler { left_btn_down: true, ..self },
                Seq::empty(),
            ),
            RawEvent::MouseButtonDown(MouseButton::Other) => (self, Seq::empty()),
            RawEvent::MouseButtonUp(MouseButton::Left) => (
                InputHandler { left_btn_down: false, ..self },
                Seq::empty(),
            ),
            RawEvent::MouseButtonUp(MouseButton::Other) => (self, Seq::empty()),
            RawEvent::MouseMotion { xrel, yrel } => (
                self,
                if self.left_btn_down {
                    seq![ViewEvent::Pan((-(xrel as int)) as i64, yrel as i64)]
                } else {
                    Seq::empty()
                },
            ),
            RawEvent::WindowResized { width, height } => (
                self,
                seq![ViewEvent::WindowResize(width, height)],
            ),
            RawEvent::Other => (self, Seq::empty()),
        }
    }

    /// Translate one raw platform event into zero or more view events,
    /// updating the drag flag and held-key state.
    pub fn handle_input(&mut self, event: &RawEvent) -> (out: Vec<ViewEvent>)
        ensures
            *final(self) == old(self).translated(*event).0,
            out@ == old(self).translated(*event).1,
            forall|i: int| 0 <= i < out@.len() ==> view_event_wf(#[trigger] out@[i]),
    {
        let mut out: Vec<ViewEvent> = Vec::new();
        match event {
            RawEvent::Quit => {
                out.push(ViewEvent::Quit);
            },
            RawEvent::KeyDown(key) => {
                match key {
                    Key::Escape => {
                        out.push(ViewEvent::Quit);
                    },
                    Key::W => {
                        self.translation_y = KEY_PAN_STEP;
                        out.push(
                            ViewEvent::Pan(self.translation_x as i64, self.translation_y as i64),
                        );
                    },
                    Key::S => {
                        self.translation_y = -KEY_PAN_STEP;
                        out.push(
                            ViewEvent::Pan(self.translation_x as i64, self.translation_y as i64),
                        );
                    },
                    Key::A => {
                        self.translation_x = -KEY_PAN_STEP;
                        out.push(
                            ViewEvent::Pan(self.translation_x as i64, self.translation_y as i64),
                        );
                    },
                    Key::D => {
                        self.translation_x = KEY_PAN_STEP;
                        out.push(
                            ViewEvent::Pan(self.translation_x as i64, self.translation_y as i64),
                        );
                    },
                    Key::Equals => {
                        out.push(ViewEvent::Zoom(Rat::new(11, 10)));
                    },
                    Key::Minus => {
                        out.push(ViewEvent::UnZoom(Rat::new(11, 10)));
                    },
                    Key::Other => {},
                }
            },
            RawEvent::KeyUp(key) => {
                match key {
                    Key::W => {
                        self.translation_y = 0;
                    },
                    Key::S => {
                        self.translation_y = 0;
                    },
                    Key::A => {
                        self.translation_x = 0;
                    },
                    Key::D => {
                        self.translation_x = 0;
                    },
                    _ => {},
                }
            },
            RawEvent::MouseWheel { y } => {
                if *y > 0 {
                    out.push(ViewEvent::Zoom(Rat::new(11, 10)));
                } else {
                    out.push(ViewEvent::UnZoom(Rat::new(11, 10)));
                }
            },
            RawEvent::MouseButtonDown(btn) => {
                if *btn == MouseButton::Left {
                    self.left_btn_down = true;
                }
            },
            RawEvent::MouseButtonUp(btn) => {
                if *btn == MouseButton::Left {
                    self.left_btn_down = false;
                }
            },
            RawEvent::MouseMotion { xrel, yrel } => {
                if self.left_btn_down {
                    out.push(ViewEvent::Pan(-(*xrel as i64), *yrel as i64));
                }
            },
            RawEvent::WindowResized { width, height } => {
                out.push(ViewEvent::WindowResize(*width, *height));
            },
            RawEvent::Other => {},
        }
        out
    }
}

impl Default for InputHandler {
    /// The startup translator state.
    fn default() -> (h: InputHandler)
        ensures
            h == InputHandler::initial(),
    {
        InputHandler { left_btn_down: false, translation_x: 0, translation_y: 0 }
    }
}

} // verus!
