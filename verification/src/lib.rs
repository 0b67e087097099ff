//! Interactive view-state pipeline for an escape-time fractal viewer.
//!
//! The crate models the camera (focus, zoom, camera extents, derived axis
//! ranges) with exact rational arithmetic, translates raw input events into
//! view events, applies them to the view state, and turns the resulting state
//! into the uniform writes that a GPU shader program consumes.  Window and
//! GPU plumbing live outside this crate; everything here is pure computation.

pub mod events;
pub mod frame;
pub mod input;
pub mod instructions;
pub mod laws;
pub mod panel;
pub mod params;
pub mod property;
pub mod rat;
pub mod renderer_error;
pub mod resources;
pub mod sync;
pub mod view_state;
