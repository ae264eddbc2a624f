//! The fixed per-image command sequence and the submission arguments. Each
//! swapchain image gets one pre-recorded command buffer, bound to that
//! image's framebuffer; the whole set is re-recorded when the chain is
//! rebuilt. Submission always waits on the slot's image-available
//! semaphore at the color-attachment-output stage, signals the slot's
//! render-finished semaphore, and signals the slot's fence for CPU-side
//! completion tracking.

use vstd::prelude::*;

use crate::config::Extent2D;

verus! {

/// Pipeline-stage code for color-attachment output, the stage at which a
/// submission waits for its image to become available. Earlier stages (the
/// vertex work) may run before the image is handed over.
pub const STAGE_COLOR_ATTACHMENT_OUTPUT: u32 = 1024;

/// A color with 8-bit channels; the host maps each channel onto the unit
/// interval when it records the clear value.
#[derive(Clone, Copy, PartialEq, Eq, Structural, Debug)]
pub struct ClearColor {
    pub red: u8,
    pub green: u8,
    pub blue: u8,
    pub alpha: u8,
}

/// The clear color every frame starts from: opaque black.
pub open spec fn clear_black() -> ClearColor {
    ClearColor { red: 0, green: 0, blue: 0, alpha: 255 }
}

/// One recorded command of the fixed per-image draw sequence.
#[derive(Clone, Copy, PartialEq, Eq, Structural, Debug)]
pub enum DrawCommand {
    /// Begin the render pass on the framebuffer of the named image, over
    /// the full render area, clearing to the given color.
    BeginRenderPass { framebuffer_index: usize, render_area: Extent2D, clear: ClearColor },
    /// Bind the one graphics pipeline.
    BindGraphicsPipeline,
    /// One draw call; the geometry is hardcoded in the vertex stage.
    Draw { vertex_count: u32, instance_count: u32, first_vertex: u32, first_instance: u32 },
    /// End the render pass.
    EndRenderPass,
}

/// The fixed sequence recorded into the command buffer of one image: begin
/// the pass clearing to black, bind the pipeline, draw one triangle, end
/// the pass.
pub open spec fn command_sequence(image_index: int, render_area: Extent2D) -> Seq<DrawCommand> {
    seq![
        DrawCommand::BeginRenderPass {
            framebuffer_index: image_index as usize,
            render_area,
            clear: clear_black(),
        },
        DrawCommand::BindGraphicsPipeline,
        DrawCommand::Draw { vertex_count: 3, instance_count: 1, first_vertex: 0, first_instance: 0 },
        DrawCommand::EndRenderPass,
    ]
}

/// Records the command buffer contents for one swapchain image.
pub fn record_commands(image_index: usize, render_area: Extent2D) -> (commands: Vec<DrawCommand>)
    ensures
        commands@ == command_sequence(image_index as int, render_area),
{
    let mut commands: Vec<DrawCommand> = Vec::new();
    commands.push(
        DrawCommand::BeginRenderPass {
            framebuffer_index: image_index,
            render_area,
            clear: ClearColor { red: 0, green: 0, blue: 0, alpha: 255 },
        },
    );
    commands.push(DrawCommand::BindGraphicsPipeline);
    commands.push(
        DrawCommand::Draw { vertex_count: 3, instance_count: 1, first_vertex: 0, first_instance: 0 },
    );
    commands.push(DrawCommand::EndRenderPass);
    assert(commands@ =~= command_sequence(image_index as int, render_area));
    commands
}

/// The arguments of one queue submission: exactly one command buffer,
/// waiting on one semaphore at one stage, signaling one semaphore and one
/// fence. Semaphores and the fence are named by the slot that owns them.
#[derive(Clone, Copy, PartialEq, Eq, Structural, Debug)]
pub struct SubmitArgs {
    /// The command buffer of the acquired image.
    pub command_buffer: usize,
    /// The slot whose image-available semaphore the submission waits on.
    pub wait_slot: usize,
    /// The pipeline stage at which that wait applies.
    pub wait_stage: u32,
    /// The slot whose render-finished semaphore the submission signals.
    pub signal_slot: usize,
    /// The slot whose fence the submission signals, reset to unsignaled
    /// just before the submission.
    pub fence_slot: usize,
}

/// The submission for image `image_index` driven by frame slot `slot`: all
/// three synchronization objects are the slot's own, and the wait applies
/// at color-attachment output.
pub open spec fn submission_for(slot: int, image_index: int) -> SubmitArgs {
    SubmitArgs {
        command_buffer: image_index as usize,
        wait_slot: slot as usize,
        wait_stage: STAGE_COLOR_ATTACHMENT_OUTPUT,
        signal_slot: slot as usize,
        fence_slot: slot as usize,
    }
}

/// Builds the submission arguments for one frame.
pub fn submit_args(slot: usize, image_index: usize) -> (args: SubmitArgs)
    ensures
        args == submission_for(slot as int, image_index as int),
{
    SubmitArgs {
        command_buffer: image_index,
        wait_slot: slot,
        wait_stage: STAGE_COLOR_ATTACHMENT_OUTPUT,
        signal_slot: slot,
        fence_slot: slot,
    }
}

} // verus!
