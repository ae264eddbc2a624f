//! Resource lifetimes as explicit, auditable orders. Shutdown destroys
//! everything the engine owns in the reverse of the order it was created;
//! recreation tears down only the chain-dependent resources, dependents
//! first, and rebuilds bottom-up from the surface configuration through to
//! the command buffers. The host may only run these steps after the device
//! confirmed that no in-flight work references the resources.

use vstd::prelude::*;

verus! {

/// A resource, or group of resources with one lifetime, that the engine
/// owns.
#[derive(Clone, Copy, PartialEq, Eq, Structural, Debug)]
pub enum EngineResource {
    /// The presentation surface.
    Surface,
    /// The swapchain handle and its images.
    Swapchain,
    /// The per-image 2D color views.
    ImageViews,
    /// The render pass (format-dependent).
    RenderPass,
    /// The pipeline layout.
    PipelineLayout,
    /// The graphics pipeline (extent-dependent).
    Pipeline,
    /// The per-image framebuffers.
    Framebuffers,
    /// The command pool together with the buffers allocated from it.
    CommandPool,
    /// The per-image command buffers alone, re-recorded on recreation.
    CommandBuffers,
    /// The per-slot semaphores and fences.
    SyncObjects,
}

/// The order in which the engine's resources come into being.
pub open spec fn spec_creation_order() -> Seq<EngineResource> {
    seq![
        EngineResource::Surface,
        EngineResource::Swapchain,
        EngineResource::ImageViews,
        EngineResource::RenderPass,
        EngineResource::PipelineLayout,
        EngineResource::Pipeline,
        EngineResource::Framebuffers,
        EngineResource::CommandPool,
        EngineResource::SyncObjects,
    ]
}

/// The order in which shutdown destroys them: synchronization objects,
/// command pool and buffers, framebuffers, pipeline, pipeline layout,
/// render pass, image views, swapchain, surface.
pub open spec fn spec_shutdown_order() -> Seq<EngineResource> {
    seq![
        EngineResource::SyncObjects,
        EngineResource::CommandPool,
        EngineResource::Framebuffers,
        EngineResource::Pipeline,
        EngineResource::PipelineLayout,
        EngineResource::RenderPass,
        EngineResource::ImageViews,
        EngineResource::Swapchain,
        EngineResource::Surface,
    ]
}

/// The creation order, as a list the host walks.
pub fn creation_order() -> (order: Vec<EngineResource>)
    ensures
        order@ == spec_creation_order(),
{
    let mut order: Vec<EngineResource> = Vec::new();
    order.push(EngineResource::Surface);
    order.push(EngineResource::Swapchain);
    order.push(EngineResource::ImageViews);
    order.push(EngineResource::RenderPass);
    order.push(EngineResource::PipelineLayout);
    order.push(EngineResource::Pipeline);
    order.push(EngineResource::Framebuffers);
    order.push(EngineResource::CommandPool);
    order.push(EngineResource::SyncObjects);
    assert(order@ =~= spec_creation_order());
    order
}

/// The shutdown order, as a list the host walks after draining the
/// device.
pub fn shutdown_order() -> (order: Vec<EngineResource>)
    ensures
        order@ == spec_shutdown_order(),
{
    let mut order: Vec<EngineResource> = Vec::new();
    order.push(EngineResource::SyncObjects);
    order.push(EngineResource::CommandPool);
    order.push(EngineResource::Framebuffers);
    order.push(EngineResource::Pipeline);
    order.push(EngineResource::PipelineLayout);
    order.push(EngineResource::RenderPass);
    order.push(EngineResource::ImageViews);
    order.push(EngineResource::Swapchain);
    order.push(EngineResource::Surface);
    assert(order@ =~= spec_shutdown_order());
    order
}

/// Shutdown is exactly creation run backwards: no owned resource outlives
/// one it depends on.
pub proof fn lemma_shutdown_reverses_creation()
    ensures
        spec_shutdown_order() == spec_creation_order().reverse(),
{
    assert(spec_shutdown_order() =~= spec_creation_order().reverse());
}

/// What recreation tears down, dependents first: framebuffers, pipeline,
/// render pass, image views, then the swapchain itself.
pub open spec fn spec_recreation_teardown_order() -> Seq<EngineResource> {
    seq![
        EngineResource::Framebuffers,
        EngineResource::Pipeline,
        EngineResource::RenderPass,
        EngineResource::ImageViews,
        EngineResource::Swapchain,
    ]
}

/// What recreation rebuilds, bottom-up from the surface configuration
/// through to the command buffers.
pub open spec fn spec_recreation_rebuild_order() -> Seq<EngineResource> {
    seq![
        EngineResource::Swapchain,
        EngineResource::ImageViews,
        EngineResource::RenderPass,
        EngineResource::Pipeline,
        EngineResource::Framebuffers,
        EngineResource::CommandBuffers,
    ]
}

/// The recreation teardown order, as a list the host walks after waiting
/// on the frame-slot fences (or the whole device).
pub fn recreation_teardown_order() -> (order: Vec<EngineResource>)
    ensures
        order@ == spec_recreation_teardown_order(),
{
    let mut order: Vec<EngineResource> = Vec::new();
    order.push(EngineResource::Framebuffers);
    order.push(EngineResource::Pipeline);
    order.push(EngineResource::RenderPass);
    order.push(EngineResource::ImageViews);
    order.push(EngineResource::Swapchain);
    assert(order@ =~= spec_recreation_teardown_order());
    order
}

/// The recreation rebuild order, as a list the host walks.
pub fn recreation_rebuild_order() -> (order: Vec<EngineResource>)
    ensures
        order@ == spec_recreation_rebuild_order(),
{
    let mut order: Vec<EngineResource> = Vec::new();
    order.push(EngineResource::Swapchain);
    order.push(EngineResource::ImageViews);
    order.push(EngineResource::RenderPass);
    order.push(EngineResource::Pipeline);
    order.push(EngineResource::Framebuffers);
    order.push(EngineResource::CommandBuffers);
    assert(order@ =~= spec_recreation_rebuild_order());
    order
}

/// Recreation rebuilds exactly what it tore down — the chain and
/// everything derived from it — and re-records the command buffers, so
/// after a rebuild no resource refers to the retired chain.
pub proof fn lemma_recreation_rebuilds_teardown()
    ensures
        spec_recreation_rebuild_order().drop_last()
            == spec_recreation_teardown_order().reverse(),
        spec_recreation_rebuild_order().last() == EngineResource::CommandBuffers,
{
    assert(spec_recreation_rebuild_order().drop_last()
        =~= spec_recreation_teardown_order().reverse());
}

} // verus!
