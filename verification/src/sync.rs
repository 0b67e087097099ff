//! The uniform synchronizer: render instructions in, uniform writes out.
//!
//! Each render instruction maps one-to-one onto named shader uniform writes;
//! the names must match the fragment shader's uniform surface bit for bit.
//! After the frame's instructions, the current viewport size is always
//! re-uploaded, unconditionally, and the full-viewport quad is drawn.  The
//! GPU calls themselves are platform glue; this module computes the exact
//! sequence of writes they must perform.

use vstd::prelude::*;
use crate::instructions::RenderInstruction;
use crate::params::FractalType;
use crate::rat::Rat;
use crate::renderer_error::Error;

verus! {

/// The shader's uniform surface.  One identifier per uniform name.
#[derive(Clone, Copy, Debug, PartialEq, Eq, Structural)]
pub enum UniformId {
    XAxisRange,
    YAxisRange,
    Julia,
    JuliaConst,
    MaxIterations,
    HsvScale,
    TerminalColor,
    ScreenSize,
}

/// The value carried by one uniform write.
#[derive(Clone, Copy, Debug, PartialEq, Eq, Structural)]
pub enum UniformValue {
    /// A scalar integer uniform.
    Int(i32),
    /// A boolean uniform.
    Flag(bool),
    /// A two-component vector uniform.
    Pair(Rat, Rat),
    /// A three-component vector uniform.
    Triple(Rat, Rat, Rat),
    /// The viewport size in pixels.
    Size(i32, i32),
}

/// One named uniform write.  A name missing from the compiled program makes
/// the write a logged no-op at the GPU boundary, never an abort.
#[derive(Clone, Copy, Debug, PartialEq, Eq, Structural)]
pub struct UniformWrite {
    pub id: UniformId,
    pub value: UniformValue,
}

/// The shader-source name of each uniform.
pub open spec fn spec_uniform_name(id: UniformId) -> Seq<char> {
    match id {
        UniformId::XAxisRange => "x_axis_range"@,
        UniformId::YAxisRange => "y_axis_range"@,
        UniformId::Julia => "julia"@,
        UniformId::JuliaConst => "julia_const"@,
        UniformId::MaxIterations => "max_iterations"@,
        UniformId::HsvScale => "hsv_scale"@,
        UniformId::TerminalColor => "terminal_color"@,
        UniformId::ScreenSize => "screen_size"@,
    }
}

/// The shader-source name of a uniform; these strings are the contract with
/// the fragment shader and must never change.
pub fn uniform_name(id: UniformId) -> (name: &'static str)
    ensures
        name@ == spec_uniform_name(id),
{
    match id {
        UniformId::XAxisRange => "x_axis_range",
        UniformId::YAxisRange => "y_axis_range",
        UniformId::Julia => "julia",
        UniformId::JuliaConst => "julia_const",
        UniformId::MaxIterations => "max_iterations",
        UniformId::HsvScale => "hsv_scale",
        UniformId::TerminalColor => "terminal_color",
        UniformId::ScreenSize => "screen_size",
    }
}

/// The outcome of one uniform write, given whether the compiled program has
/// a location for the uniform's name.  A missing name is a recoverable
/// error naming the uniform, which the caller logs and skips; it must never
/// stop the remaining writes or the draw call.
pub fn uniform_write_outcome(id: UniformId, location_found: bool) -> (r: Result<(), Error>)
    ensures
        location_found <==> r is Ok,
        !location_found ==> (match r {
            Result::Err(e) => match e {
                Error::SetUniformError { name, message } => name@ == spec_uniform_name(id)
                    && message@ == "Uniform not found"@,
                _ => false,
            },
            Result::Ok(_) => false,
        }),
{
    if location_found {
        Ok(())
    } else {
        Err(
            Error::SetUniformError {
                name: uniform_name(id).to_owned(),
                message: "Uniform not found".to_owned(),
            },
        )
    }
}

/// The iteration cap actually uploaded: at least one, whatever the model
/// transiently holds.
pub open spec fn clamped_iterations(n: i32) -> i32 {
    if n < 1 {
        1i32
    } else {
        n
    }
}

/// The uniform writes of one render instruction.
pub open spec fn spec_instruction_writes(inst: RenderInstruction) -> Seq<UniformWrite> {
    match inst {
        RenderInstruction::AxisRange { x_min, x_max, y_min, y_max } => seq![
            UniformWrite { id: UniformId::XAxisRange, value: UniformValue::Pair(x_min, x_max) },
            UniformWrite { id: UniformId::YAxisRange, value: UniformValue::Pair(y_min, y_max) },
        ],
        RenderInstruction::Iterations(n) => seq![
            UniformWrite {
                id: UniformId::MaxIterations,
                value: UniformValue::Int(clamped_iterations(n)),
            },
        ],
        RenderInstruction::FractalChoice(FractalType::Mandelbrot) => seq![
            UniformWrite { id: UniformId::Julia, value: UniformValue::Flag(false) },
        ],
        RenderInstruction::FractalChoice(FractalType::Julia(cx, cy)) => seq![
            UniformWrite { id: UniformId::Julia, value: UniformValue::Flag(true) },
            UniformWrite { id: UniformId::JuliaConst, value: UniformValue::Pair(cx, cy) },
        ],
        RenderInstruction::HsvScale(h, s, v) => seq![
            UniformWrite { id: UniformId::HsvScale, value: UniformValue::Triple(h, s, v) },
        ],
        RenderInstruction::TerminalColor(r, g, b) => seq![
            UniformWrite { id: UniformId::TerminalColor, value: UniformValue::Triple(r, g, b) },
        ],
    }
}

/// Map one render instruction onto its uniform writes, clamping the
/// iteration cap at the upload boundary.
pub fn instruction_writes(inst: &RenderInstruction) -> (out: Vec<UniformWrite>)
    ensures
        out@ == spec_instruction_writes(*inst),
{
    let mut out: Vec<UniformWrite> = Vec::new();
    match inst {
        RenderInstruction::AxisRange { x_min, x_max, y_min, y_max } => {
            out.push(
                UniformWrite {
                    id: UniformId::XAxisRange,
                    value: UniformValue::Pair(*x_min, *x_max),
                },
            );
            out.push(
                UniformWrite {
                    id: UniformId::YAxisRange,
                    value: UniformValue::Pair(*y_min, *y_max),
                },
            );
        },
        RenderInstruction::Iterations(n) => {
            let clamped = if *n < 1 {
                1
            } else {
                *n
            };
            out.push(
                UniformWrite { id: UniformId::MaxIterations, value: UniformValue::Int(clamped) },
            );
        },
        RenderInstruction::FractalChoice(variant) => {
            match variant {
                FractalType::Mandelbrot => {
                    out.push(
                        UniformWrite { id: UniformId::Julia, value: UniformValue::Flag(false) },
                    );
                },
                FractalType::Julia(cx, cy) => {
                    out.push(
                        UniformWrite { id: UniformId::Julia, value: UniformValue::Flag(true) },
                    );
                    out.push(
                        UniformWrite {
                            id: UniformId::JuliaConst,
                            value: UniformValue::Pair(*cx, *cy),
                        },
                    );
                },
            }
        },
        RenderInstruction::HsvScale(h, s, v) => {
            out.push(
                UniformWrite { id: UniformId::HsvScale, value: UniformValue::Triple(*h, *s, *v) },
            );
        },
        RenderInstruction::TerminalColor(r, g, b) => {
            out.push(
                UniformWrite {
                    id: UniformId::TerminalColor,
                    value: UniformValue::Triple(*r, *g, *b),
                },
            );
        },
    }
    proof {
        assert(out@ =~= spec_instruction_writes(*inst));
    }
    out
}

/// The uniform writes of a whole frame's instruction list, in order.
pub open spec fn spec_writes_of_all(instrs: Seq<RenderInstruction>) -> Seq<UniformWrite>
    decreases instrs.len(),
{
    if instrs.len() == 0 {
        Seq::empty()
    } else {
        spec_writes_of_all(instrs.drop_last()) + spec_instruction_writes(instrs.last())
    }
}

/// The final, unconditional write of every frame: the viewport size, which
/// the shader needs for its pixel-to-world mapping.
pub open spec fn screen_size_write(viewport_width: i32, viewport_height: i32) -> UniformWrite {
    UniformWrite {
        id: UniformId::ScreenSize,
        value: UniformValue::Size(viewport_width, viewport_height),
    }
}

/// The uniform writes of one frame: every instruction's writes in order,
/// then the viewport size.
pub open spec fn spec_frame_writes(
    instrs: Seq<RenderInstruction>,
    viewport_width: i32,
    viewport_height: i32,
) -> Seq<UniformWrite> {
    spec_writes_of_all(instrs) + seq![screen_size_write(viewport_width, viewport_height)]
}

/// Apply a frame's render instructions: map each instruction onto its
/// uniform writes in order, then append the unconditional viewport-size
/// write that precedes the draw call.
pub fn frame_writes(
    instructions: &Vec<RenderInstruction>,
    viewport_width: i32,
    viewport_height: i32,
) -> (out: Vec<UniformWrite>)
    ensures
        out@ == spec_frame_writes(instructions@, viewport_width, viewport_height),
{
    let mut out: Vec<UniformWrite> = Vec::new();
    let mut i: usize = 0;
    while i < instructions.len()
        invariant
            0 <= i <= instructions@.len(),
            out@ == spec_writes_of_all(instructions@.subrange(0, i as int)),
        decreases instructions@.len() - i,
    {
        let mut writes = instruction_writes(&instructions[i]);
        out.append(&mut writes);
        proof {
            assert(instructions@.subrange(0, i + 1 as int).drop_last() =~= instructions@.subrange(
                0,
                i as int,
            ));
        }
        i = i + 1;
    }
    proof {
        assert(instructions@.subrange(0, instructions@.len() as int) =~= instructions@);
    }
    out.push(
        UniformWrite {
            id: UniformId::ScreenSize,
            value: UniformValue::Size(viewport_width, viewport_height),
        },
    );
    out
}

/// The vertex positions of the static full-viewport quad: four corners of
/// the unit square at depth zero, three coordinates per vertex, uploaded
/// once at startup and reused for the process lifetime.
pub fn quad_vertices() -> (v: Vec<i8>)
    ensures
        v@ == seq![
            -1i8, -1i8, 0i8,
            1i8, 1i8, 0i8,
            -1i8, 1i8, 0i8,
            1i8, -1i8, 0i8,
        ],
{
    let mut v: Vec<i8> = Vec::new();
    v.push(-1);
    v.push(-1);
    v.push(0);
    v.push(1);
    v.push(1);
    v.push(0);
    v.push(-1);
    v.push(1);
    v.push(0);
    v.push(1);
    v.push(-1);
    v.push(0);
    proof {
        assert(v@ =~= seq![-1i8, -1i8, 0i8, 1i8, 1i8, 0i8, -1i8, 1i8, 0i8, 1i8, -1i8, 0i8]);
    }
    v
}

/// The index list of the static quad: two triangles, six indices.
pub fn quad_indices() -> (v: Vec<i32>)
    ensures
        v@ == seq![0i32, 1i32, 2i32, 0i32, 3i32, 1i32],
{
    let mut v: Vec<i32> = Vec::new();
    v.push(0);
    v.push(1);
    v.push(2);
    v.push(0);
    v.push(3);
    v.push(1);
    proof {
        assert(v@ =~= seq![0i32, 1i32, 2i32, 0i32, 3i32, 1i32]);
    }
    v
}

} // verus!
