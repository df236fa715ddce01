//! Decision core of a small forward renderer driving an explicit GPU API.
//!
//! The crate holds the logic that a render loop must get right: choosing
//! swapchain parameters from surface capabilities, scheduling frames in
//! flight without cross-frame hazards, accounting for the GPU resources
//! that a swapchain recreation cascade destroys and rebuilds, assembling
//! and deduplicating mesh vertices, and validating texture input. The
//! surrounding process performs the actual GPU and window calls and feeds
//! their observed results back into these verified state machines.

use vstd::prelude::*;

pub mod command;
pub mod device;
pub mod frame;
pub mod memory;
pub mod queue;
pub mod render;
pub mod render_pass;
pub mod resources;
pub mod swapchain;
pub mod texture;
pub mod vertex;

verus! {

/// Number of frame slots that may be submitted to the GPU concurrently.
pub const MAX_FRAMES_IN_FLIGHT: usize = 2;

} // verus!
