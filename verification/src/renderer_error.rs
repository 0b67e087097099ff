//! Error type of the rendering layer.
//!
//! Shader compilation, program linking and uniform lookup happen at the GPU
//! boundary; this type carries their failures.  Resource-load, compile and
//! link errors are fatal at startup, while a failed uniform lookup is logged
//! and skipped so a cosmetic parameter can never stop the frame loop.

use vstd::prelude::*;
use crate::resources;

verus! {

/// A failure of the rendering layer, each with the name of the shader,
/// program or uniform involved.
#[derive(Debug)]
pub enum Error {
    /// A shader source file could not be loaded.
    ResourceLoad { name: String, inner: resources::Error },
    /// A shader failed to compile; the message is the compiler log.
    CompileError { name: String, message: String },
    /// The program failed to link; the message is the linker log.
    LinkError { name: String, message: String },
    /// A named uniform was not found in the compiled program; recoverable.
    SetUniformError { name: String, message: String },
}

} // verus!
