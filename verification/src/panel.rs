//! The parameter panel: per-frame edits in, render instructions out.
//!
//! The widget layout itself is platform glue; what this module owns is how
//! "the user interacted with control X this frame" becomes model edits and
//! the frame's render instructions.  A control's edit signal
//! carries the value the user left in it, whether or not it differs from the
//! stored one.

use vstd::prelude::*;
use crate::instructions::RenderInstruction;
use crate::params::FractalParams;
use crate::rat::{q_pos, q_small, q_wf, Rat};
use crate::view_state::ViewState;

verus! {

/// The edit signals of one frame: for every control, the value the user left
/// in it if they interacted with it this frame, `None` otherwise.
#[derive(Clone, Copy, Debug, PartialEq, Eq, Structural)]
pub struct EditSignals {
    pub max_iterations: Option<i32>,
    pub julia_selected: Option<bool>,
    pub julia_cx: Option<Rat>,
    pub julia_cy: Option<Rat>,
    pub hsv_h: Option<Rat>,
    pub hsv_s: Option<Rat>,
    pub hsv_v: Option<Rat>,
    pub term_r: Option<Rat>,
    pub term_g: Option<Rat>,
    pub term_b: Option<Rat>,
    pub focus_x: Option<Rat>,
    pub focus_y: Option<Rat>,
    pub zoom: Option<Rat>,
    pub camera_width: Option<Rat>,
    pub camera_height: Option<Rat>,
    pub lock_aspect_ratio: Option<bool>,
}

/// A rational edit value the model can hold.
pub open spec fn edit_rat_wf(v: Option<Rat>) -> bool {
    v is Some ==> q_wf(v->0@) && q_small(v->0@)
}

/// A rational edit value that must additionally be positive (zoom and the
/// camera extents, whose invariants demand it).
pub open spec fn edit_pos_wf(v: Option<Rat>) -> bool {
    v is Some ==> q_pos(v->0@)
}

impl EditSignals {
    /// Every carried value is one the model accepts: in-range rationals, and
    /// positive zoom and camera extents.  The widget layer rejects edits that
    /// would violate the model's invariants.
    pub open spec fn wf(self) -> bool {
        &&& edit_rat_wf(self.julia_cx) && edit_rat_wf(self.julia_cy)
        &&& edit_rat_wf(self.hsv_h) && edit_rat_wf(self.hsv_s) && edit_rat_wf(self.hsv_v)
        &&& edit_rat_wf(self.term_r) && edit_rat_wf(self.term_g) && edit_rat_wf(self.term_b)
        &&& edit_rat_wf(self.focus_x) && edit_rat_wf(self.focus_y)
        &&& edit_rat_wf(self.zoom) && edit_pos_wf(self.zoom)
        &&& edit_rat_wf(self.camera_width) && edit_pos_wf(self.camera_width)
        &&& edit_rat_wf(self.camera_height) && edit_pos_wf(self.camera_height)
    }

    /// A frame in which the user touched nothing.
    pub fn none() -> (e: EditSignals)
        ensures
            e == EditSignals::untouched(),
            e.wf(),
    {
        EditSignals {
            max_iterations: None,
            julia_selected: None,
            julia_cx: None,
            julia_cy: None,
            hsv_h: None,
            hsv_s: None,
            hsv_v: None,
            term_r: None,
            term_g: None,
            term_b: None,
            focus_x: None,
            focus_y: None,
            zoom: None,
            camera_width: None,
            camera_height: None,
            lock_aspect_ratio: None,
        }
    }

    /// The frame with no interaction.
    pub open spec fn untouched() -> EditSignals {
        EditSignals {
            max_iterations: None::<i32>,
            julia_selected: None::<bool>,
            julia_cx: None::<Rat>,
            julia_cy: None::<Rat>,
            hsv_h: None::<Rat>,
            hsv_s: None::<Rat>,
            hsv_v: None::<Rat>,
            term_r: None::<Rat>,
            term_g: None::<Rat>,
            term_b: None::<Rat>,
            focus_x: None::<Rat>,
            focus_y: None::<Rat>,
            zoom: None::<Rat>,
            camera_width: None::<Rat>,
            camera_height: None::<Rat>,
            lock_aspect_ratio: None::<bool>,
        }
    }

    /// The user touched at least one HSV scale control this frame.
    pub open spec fn hsv_edited(self) -> bool {
        self.hsv_h is Some || self.hsv_s is Some || self.hsv_v is Some
    }

    /// The user touched at least one terminal color control this frame.
    pub open spec fn terminal_edited(self) -> bool {
        self.term_r is Some || self.term_g is Some || self.term_b is Some
    }
}

/// The parameter panel: the view state model it owns, and the edit logic
/// that turns one frame's interaction into render instructions.
#[derive(Clone, Copy, Debug, PartialEq, Eq, Structural)]
pub struct PropertiesWindow {
    pub view: ViewState,
    pub params: FractalParams,
}

/// The fractal parameters after one frame's edits.  The Julia constant
/// controls are visible, and hence editable, only while the Julia variant is
/// selected after this frame's combo interaction.
pub open spec fn edited_params(p: FractalParams, e: EditSignals) -> FractalParams {
    let selected = match e.julia_selected {
        Some(j) => j,
        None => p.julia_selected,
    };
    FractalParams {
        max_iterations: match e.max_iterations {
            Some(n) => n,
            None => p.max_iterations,
        },
        julia_selected: selected,
        julia_cx: match e.julia_cx {
            Some(c) => if selected {
                c
            } else {
                p.julia_cx
            },
            None => p.julia_cx,
        },
        julia_cy: match e.julia_cy {
            Some(c) => if selected {
                c
            } else {
                p.julia_cy
            },
            None => p.julia_cy,
        },
        hsv_h: match e.hsv_h {
            Some(v) => v,
            None => p.hsv_h,
        },
        hsv_s: match e.hsv_s {
            Some(v) => v,
            None => p.hsv_s,
        },
        hsv_v: match e.hsv_v {
            Some(v) => v,
            None => p.hsv_v,
        },
        term_r: match e.term_r {
            Some(v) => v,
            None => p.term_r,
        },
        term_g: match e.term_g {
            Some(v) => v,
            None => p.term_g,
        },
        term_b: match e.term_b {
            Some(v) => v,
            None => p.term_b,
        },
    }
}

/// The view state after one frame's direct edits and the final range
/// recomputation.  Edits are applied in layout order: focus, zoom, aspect
/// lock, camera width, camera height.
pub open spec fn edited_view(s: ViewState, e: EditSignals) -> ViewState {
    let s1 = match e.focus_x {
        Some(x) => s.with_focus(x, s.focus_y),
        None => s,
    };
    let s2 = match e.focus_y {
        Some(y) => s1.with_focus(s1.focus_x, y),
        None => s1,
    };
    let s3 = match e.zoom {
        Some(z) => s2.with_zoom(z),
        None => s2,
    };
    let s4 = match e.lock_aspect_ratio {
        Some(l) => s3.with_lock_aspect_ratio(l),
        None => s3,
    };
    let s5 = match e.camera_width {
        Some(w) => s4.with_camera_width(w),
        None => s4,
    };
    let s6 = match e.camera_height {
        Some(h) => s5.with_camera_height(h),
        None => s5,
    };
    s6.with_ranges()
}

/// The render instructions of one frame, over the already-edited model.
///
/// The iteration cap and the fractal choice are emitted every frame, since
/// the shader keeps no uniform memory across frames.  Color instructions are
/// emitted only on interaction.  The axis ranges are emitted unless the GUI
/// captured the mouse this frame, so that dragging a widget does not also pan
/// the fractal underneath it.
pub open spec fn frame_instructions(
    p: FractalParams,
    s: ViewState,
    e: EditSignals,
    gui_captured_mouse: bool,
) -> Seq<RenderInstruction> {
    seq![
        RenderInstruction::Iterations(p.max_iterations),
        RenderInstruction::FractalChoice(p.variant_spec()),
    ] + (if e.hsv_edited() {
        seq![RenderInstruction::HsvScale(p.hsv_h, p.hsv_s, p.hsv_v)]
    } else {
        Seq::empty()
    }) + (if e.terminal_edited() {
        seq![RenderInstruction::TerminalColor(p.term_r, p.term_g, p.term_b)]
    } else {
        Seq::empty()
    }) + (if !gui_captured_mouse {
        seq![
            RenderInstruction::AxisRange {
                x_min: s.axis_x_min,
                x_max: s.axis_x_max,
                y_min: s.axis_y_min,
                y_max: s.axis_y_max,
            },
        ]
    } else {
        Seq::empty()
    })
}

impl PropertiesWindow {
    /// Both halves of the model are well formed.
    pub open spec fn wf(self) -> bool {
        self.view.wf() && self.params.wf()
    }

    /// Apply one frame's edit signals to the model, recompute the axis
    /// ranges, and return the frame's render instructions.
    ///
    /// Called exactly once per frame, after every view event of the frame has
    /// been applied to the model.
    pub fn draw(&mut self, edits: &EditSignals, gui_captured_mouse: bool) -> (out: Vec<
        RenderInstruction,
    >)
        requires
            old(self).wf(),
            edits.wf(),
        ensures
            final(self).params == edited_params(old(self).params, *edits),
            final(self).view == edited_view(old(self).view, *edits),
            out@ == frame_instructions(
                final(self).params,
                final(self).view,
                *edits,
                gui_captured_mouse,
            ),
            final(self).wf(),
    {
        apply_param_edits(&mut self.params, edits);
        apply_view_edits(&mut self.view, edits);
        emit_instructions(&self.params, &self.view, edits, gui_captured_mouse)
    }
}

/// Write one frame's parameter edits into the fractal parameters.
fn apply_param_edits(p: &mut FractalParams, edits: &EditSignals)
    requires
        old(p).wf(),
        edits.wf(),
    ensures
        *final(p) == edited_params(*old(p), *edits),
        final(p).wf(),
{
    if let Some(n) = edits.max_iterations {
        p.max_iterations = n;
    }
    if let Some(j) = edits.julia_selected {
        p.julia_selected = j;
    }
    if p.julia_selected {
        if let Some(c) = edits.julia_cx {
            p.julia_cx = c;
        }
        if let Some(c) = edits.julia_cy {
            p.julia_cy = c;
        }
    }
    if let Some(v) = edits.hsv_h {
        p.hsv_h = v;
    }
    if let Some(v) = edits.hsv_s {
        p.hsv_s = v;
    }
    if let Some(v) = edits.hsv_v {
        p.hsv_v = v;
    }
    if let Some(v) = edits.term_r {
        p.term_r = v;
    }
    if let Some(v) = edits.term_g {
        p.term_g = v;
    }
    if let Some(v) = edits.term_b {
        p.term_b = v;
    }
}

/// Write one frame's direct view edits, in layout order, and recompute the
/// axis ranges.
fn apply_view_edits(v: &mut ViewState, edits: &EditSignals)
    requires
        old(v).wf(),
        edits.wf(),
    ensures
        *final(v) == edited_view(*old(v), *edits),
        final(v).wf(),
{
    if let Some(x) = edits.focus_x {
        let y = v.focus_y;
        v.set_focus(x, y);
    }
    if let Some(y) = edits.focus_y {
        let x = v.focus_x;
        v.set_focus(x, y);
    }
    if let Some(z) = edits.zoom {
        v.set_zoom(z);
    }
    if let Some(l) = edits.lock_aspect_ratio {
        v.set_lock_aspect_ratio(l);
    }
    if let Some(w) = edits.camera_width {
        v.set_camera_width(w);
    }
    if let Some(h) = edits.camera_height {
        v.set_camera_height(h);
    }
    v.recompute_axis_ranges();
}

/// Build the frame's render instructions from the already-edited model.
fn emit_instructions(
    p: &FractalParams,
    v: &ViewState,
    edits: &EditSignals,
    gui_captured_mouse: bool,
) -> (out: Vec<RenderInstruction>)
    ensures
        out@ == frame_instructions(*p, *v, *edits, gui_captured_mouse),
{
    let mut out: Vec<RenderInstruction> = Vec::new();
    out.push(RenderInstruction::Iterations(p.max_iterations));
    out.push(RenderInstruction::FractalChoice(p.variant()));
    if edits.hsv_h.is_some() || edits.hsv_s.is_some() || edits.hsv_v.is_some() {
        out.push(RenderInstruction::HsvScale(p.hsv_h, p.hsv_s, p.hsv_v));
    }
    if edits.term_r.is_some() || edits.term_g.is_some() || edits.term_b.is_some() {
        out.push(RenderInstruction::TerminalColor(p.term_r, p.term_g, p.term_b));
    }
    if !gui_captured_mouse {
        out.push(
            RenderInstruction::AxisRange {
                x_min: v.axis_x_min,
                x_max: v.axis_x_max,
                y_min: v.axis_y_min,
                y_max: v.axis_y_max,
            },
        );
    }
    proof {
        assert(out@ =~= frame_instructions(*p, *v, *edits, gui_captured_mouse));
    }
    out
}

impl Default for PropertiesWindow {
    /// The documented startup model.
    fn default() -> (w: PropertiesWindow)
        ensures
            w.view == ViewState::initial(),
            w.params == FractalParams::initial(),
            w.wf(),
    {
        PropertiesWindow { view: ViewState::default(), params: FractalParams::default() }
    }
}

} // verus!
