//! Decision logic of a compute-shader black hole renderer: the asset loading
//! state machine, the tracer's render-pipeline state machine with its
//! ping-pong textures, the compute dispatch plan and the camera key mapping.
use vstd::prelude::*;

pub mod asset_load;
pub mod render;

verus! {

/// Side length, in invocations, of one compute workgroup.
pub const WORKGROUP_SIZE: u32 = 8;

/// Width of the render target in pixels.
pub const SIZE_X: u32 = 1920;

/// Height of the render target in pixels.
pub const SIZE_Y: u32 = 1080;

} // verus!
