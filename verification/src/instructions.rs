//! GPU-facing parameter updates.
//!
//! A `RenderInstruction` is produced by the parameter panel once per frame
//! and consumed exactly once by the uniform synchronizer within the same
//! frame.  It describes a shader-facing fact, not user intent; the view state
//! model translates between the two.

use vstd::prelude::*;
use crate::params::FractalType;
use crate::rat::Rat;

verus! {

/// One shader-parameter update, mirroring the shader's uniform surface.
#[derive(Clone, Copy, Debug, PartialEq, Eq, Structural)]
pub enum RenderInstruction {
    /// The visible world-space bounds along each screen axis.
    AxisRange { x_min: Rat, x_max: Rat, y_min: Rat, y_max: Rat },
    /// The iteration cap; clamped to at least one at the upload boundary.
    Iterations(i32),
    /// The fractal variant, with the Julia constant when applicable.
    FractalChoice(FractalType),
    /// Color-mapping scale in HSV space.
    HsvScale(Rat, Rat, Rat),
    /// Color of points that never escape.
    TerminalColor(Rat, Rat, Rat),
}

} // verus!
