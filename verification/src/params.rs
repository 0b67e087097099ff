//! Fractal-specific render parameters, owned by the view state model and
//! edited by the parameter panel.

use vstd::prelude::*;
use crate::rat::{q_wf, Rat};

verus! {

/// Which escape-time fractal the shader draws; the Julia variant carries its
/// complex constant.
#[derive(Clone, Copy, Debug, PartialEq, Eq, Structural)]
pub enum FractalType {
    Mandelbrot,
    Julia(Rat, Rat),
}

/// The tunables the shader needs besides the camera: fractal variant, Julia
/// constant, iteration cap and color mapping.
///
/// The Julia constant is kept even while the Mandelbrot variant is selected,
/// so switching back restores it.  `max_iterations` may transiently hold any
/// value; the uniform synchronizer clamps it to at least one before upload.
#[derive(Clone, Copy, Debug, PartialEq, Eq, Structural)]
pub struct FractalParams {
    pub julia_selected: bool,
    pub julia_cx: Rat,
    pub julia_cy: Rat,
    pub max_iterations: i32,
    pub hsv_h: Rat,
    pub hsv_s: Rat,
    pub hsv_v: Rat,
    pub term_r: Rat,
    pub term_g: Rat,
    pub term_b: Rat,
}

impl FractalParams {
    /// Every rational field has a positive denominator.
    pub open spec fn wf(self) -> bool {
        &&& q_wf(self.julia_cx@) && q_wf(self.julia_cy@)
        &&& q_wf(self.hsv_h@) && q_wf(self.hsv_s@) && q_wf(self.hsv_v@)
        &&& q_wf(self.term_r@) && q_wf(self.term_g@) && q_wf(self.term_b@)
    }

    /// The documented startup parameters: Mandelbrot selected, Julia constant
    /// (-0.8, 0.156), 500 iterations, unit HSV scale, black terminal color.
    pub open spec fn initial() -> FractalParams {
        FractalParams {
            julia_selected: false,
            julia_cx: Rat { num: -4i128, den: 5 },
            julia_cy: Rat { num: 39, den: 250 },
            max_iterations: 500,
            hsv_h: Rat { num: 1, den: 1 },
            hsv_s: Rat { num: 1, den: 1 },
            hsv_v: Rat { num: 1, den: 1 },
            term_r: Rat { num: 0, den: 1 },
            term_g: Rat { num: 0, den: 1 },
            term_b: Rat { num: 0, den: 1 },
        }
    }

    /// The currently selected variant, with the Julia constant attached when
    /// the Julia variant is selected.
    pub open spec fn variant_spec(self) -> FractalType {
        if self.julia_selected {
            FractalType::Julia(self.julia_cx, self.julia_cy)
        } else {
            FractalType::Mandelbrot
        }
    }

    /// The currently selected variant.
    pub fn variant(&self) -> (v: FractalType)
        ensures
            v == self.variant_spec(),
    {
        if self.julia_selected {
            FractalType::Julia(self.julia_cx, self.julia_cy)
        } else {
            FractalType::Mandelbrot
        }
    }
}

impl Default for FractalParams {
    /// The documented startup parameters.
    fn default() -> (p: FractalParams)
        ensures
            p == FractalParams::initial(),
            p.wf(),
    {
        FractalParams {
            julia_selected: false,
            julia_cx: Rat::new(-4, 5),
            julia_cy: Rat::new(39, 250),
            max_iterations: 500,
            hsv_h: Rat::from_int(1),
            hsv_s: Rat::from_int(1),
            hsv_v: Rat::from_int(1),
            term_r: Rat::from_int(0),
            term_g: Rat::from_int(0),
            term_b: Rat::from_int(0),
        }
    }
}

} // verus!
