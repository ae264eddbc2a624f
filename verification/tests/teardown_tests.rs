use present_engine::teardown::{
    creation_order, recreation_rebuild_order, recreation_teardown_order, shutdown_order,
    EngineResource,
};

#[test]
fn shutdown_is_creation_reversed() {
    let mut creation = creation_order();
    creation.reverse();
    assert_eq!(shutdown_order(), creation);
}

#[test]
fn shutdown_walks_dependents_first() {
    assert_eq!(
        shutdown_order(),
        vec![
            EngineResource::SyncObjects,
            EngineResource::CommandPool,
            EngineResource::Framebuffers,
            EngineResource::Pipeline,
            EngineResource::PipelineLayout,
            EngineResource::RenderPass,
            EngineResource::ImageViews,
            EngineResource::Swapchain,
            EngineResource::Surface,
        ]
    );
}

#[test]
fn recreation_tears_down_chain_dependents_in_order() {
    assert_eq!(
        recreation_teardown_order(),
        vec![
            EngineResource::Framebuffers,
            EngineResource::Pipeline,
            EngineResource::RenderPass,
            EngineResource::ImageViews,
            EngineResource::Swapchain,
        ]
    );
}

#[test]
fn recreation_rebuilds_bottom_up_through_command_buffers() {
    let rebuild = recreation_rebuild_order();
    let mut torn = recreation_teardown_order();
    torn.reverse();
    assert_eq!(&rebuild[..rebuild.len() - 1], &torn[..]);
    assert_eq!(rebuild.last(), Some(&EngineResource::CommandBuffers));
}
