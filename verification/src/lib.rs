//! A verified frame-synchronization and presentation engine.
//!
//! The library models the CPU-side protocol that drives a double-buffered
//! presentation loop against an asynchronous GPU: selecting a surface
//! configuration, planning a swapchain and its dependent resources, tracking
//! which in-flight frame owns which presentable image, and deciding, frame by
//! frame, what to wait on, what to submit, when to present, and when the
//! swapchain must be rebuilt. The host program performs the actual device
//! calls and feeds their outcomes back into the engine as events.

pub mod config;
pub mod device;
pub mod commands;
pub mod frames;
pub mod scheduler;
pub mod swapchain;
pub mod teardown;

use vstd::prelude::*;

verus! {

/// How many frames may be recorded by the CPU before the GPU has finished
/// consuming the oldest one. Each frame slot owns its own pair of semaphores
/// and its own fence, so slots can be reused round-robin.
pub const MAX_FRAMES_IN_FLIGHT: usize = 2;

/// The frame slot that a given running frame counter selects: slots are used
/// strictly round-robin.
pub fn slot_for_frame(frame_index: u64) -> (slot: usize)
    ensures
        slot == frame_index as int % (MAX_FRAMES_IN_FLIGHT as int),
        slot < MAX_FRAMES_IN_FLIGHT,
{
    (frame_index % (MAX_FRAMES_IN_FLIGHT as u64)) as usize
}

} // verus!
