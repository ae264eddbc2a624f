use present_engine::commands::{SubmitArgs, STAGE_COLOR_ATTACHMENT_OUTPUT};
use present_engine::scheduler::{Action, Engine, Event, GpuOutcome, Phase};

fn submit_args_for(slot: usize, image_index: usize) -> SubmitArgs {
    SubmitArgs {
        command_buffer: image_index,
        wait_slot: slot,
        wait_stage: STAGE_COLOR_ATTACHMENT_OUTPUT,
        signal_slot: slot,
        fence_slot: slot,
    }
}

/// Drives one full pass that acquires a free image and presents it.
fn run_clean_frame(engine: &mut Engine, slot: usize, image_index: usize) {
    let a = engine.begin_frame();
    assert_eq!(a, Action::WaitForSlotFence { slot });
    let a = engine.step(Event::SlotFenceWaited { outcome: GpuOutcome::Success });
    assert_eq!(a, Action::AcquireImage { signal_slot: slot });
    let a = engine.step(Event::AcquireReturned {
        outcome: GpuOutcome::Success,
        image_index,
    });
    assert_eq!(a, Action::SubmitDraw { args: submit_args_for(slot, image_index) });
    let a = engine.step(Event::SubmitReturned { outcome: GpuOutcome::Success });
    assert_eq!(a, Action::PresentImage { wait_slot: slot, image_index });
    let a = engine.step(Event::PresentReturned { outcome: GpuOutcome::Success });
    assert_eq!(a, Action::FrameComplete);
    assert_eq!(engine.phase, Phase::Idle);
}

#[test]
fn slots_alternate_round_robin() {
    let mut engine = Engine::new(3);
    assert_eq!(present_engine::slot_for_frame(0), 0);
    assert_eq!(present_engine::slot_for_frame(1), 1);
    assert_eq!(present_engine::slot_for_frame(2), 0);
    assert_eq!(present_engine::slot_for_frame(7), 1);

    run_clean_frame(&mut engine, 0, 0);
    assert_eq!(engine.frame, 1);
    run_clean_frame(&mut engine, 1, 1);
    assert_eq!(engine.frame, 0);
    run_clean_frame(&mut engine, 0, 2);
    assert_eq!(engine.frame, 1);
}

#[test]
fn image_reclaimed_by_other_slot_waits_on_its_fence() {
    let mut engine = Engine::new(3);
    run_clean_frame(&mut engine, 0, 0);

    // Slot 0's fence is still outstanding when the driver hands image 0
    // back to slot 1 out of round-robin order.
    let a = engine.begin_frame();
    assert_eq!(a, Action::WaitForSlotFence { slot: 1 });
    let a = engine.step(Event::SlotFenceWaited { outcome: GpuOutcome::Success });
    assert_eq!(a, Action::AcquireImage { signal_slot: 1 });
    let a = engine.step(Event::AcquireReturned {
        outcome: GpuOutcome::Success,
        image_index: 0,
    });
    assert_eq!(a, Action::WaitForImageFence { slot: 0 });
    let a = engine.step(Event::ImageFenceWaited { outcome: GpuOutcome::Success });
    assert_eq!(a, Action::SubmitDraw { args: submit_args_for(1, 0) });
    let a = engine.step(Event::SubmitReturned { outcome: GpuOutcome::Success });
    assert_eq!(a, Action::PresentImage { wait_slot: 1, image_index: 0 });
    let a = engine.step(Event::PresentReturned { outcome: GpuOutcome::Success });
    assert_eq!(a, Action::FrameComplete);
}

#[test]
fn image_owned_by_observed_slot_submits_directly() {
    let mut engine = Engine::new(3);
    run_clean_frame(&mut engine, 0, 0);

    // Slot 1 renders to image 1.
    engine.begin_frame();
    engine.step(Event::SlotFenceWaited { outcome: GpuOutcome::Success });
    let a = engine.step(Event::AcquireReturned {
        outcome: GpuOutcome::Success,
        image_index: 1,
    });
    assert_eq!(a, Action::SubmitDraw { args: submit_args_for(1, 1) });
    engine.step(Event::SubmitReturned { outcome: GpuOutcome::Success });
    engine.step(Event::PresentReturned { outcome: GpuOutcome::Success });

    // Slot 0 reclaims image 0, which slot 0 itself last used: waiting on
    // its own slot fence already discharged the image's fence, so the
    // submission is issued at once.
    let a = engine.begin_frame();
    assert_eq!(a, Action::WaitForSlotFence { slot: 0 });
    let a = engine.step(Event::SlotFenceWaited { outcome: GpuOutcome::Success });
    assert_eq!(a, Action::AcquireImage { signal_slot: 0 });
    let a = engine.step(Event::AcquireReturned {
        outcome: GpuOutcome::Success,
        image_index: 0,
    });
    assert_eq!(a, Action::SubmitDraw { args: submit_args_for(0, 0) });
}

#[test]
fn suboptimal_acquire_proceeds_normally() {
    let mut engine = Engine::new(2);
    engine.begin_frame();
    engine.step(Event::SlotFenceWaited { outcome: GpuOutcome::Success });
    let a = engine.step(Event::AcquireReturned {
        outcome: GpuOutcome::Suboptimal,
        image_index: 1,
    });
    assert_eq!(a, Action::SubmitDraw { args: submit_args_for(0, 1) });
}

#[test]
fn out_of_date_acquire_drops_frame_and_rebuilds() {
    let mut engine = Engine::new(3);
    for pass in 0..5 {
        // Each slot takes back the image it itself used two passes ago,
        // whose fence the slot wait at the top of the pass discharged.
        run_clean_frame(&mut engine, pass % 2, pass % 2);
    }
    assert_eq!(engine.frame, 1);

    // The sixth pass acquires nothing: no submit, no present, the frame
    // counter stays put, and the chain is rebuilt.
    let a = engine.begin_frame();
    assert_eq!(a, Action::WaitForSlotFence { slot: 1 });
    let a = engine.step(Event::SlotFenceWaited { outcome: GpuOutcome::Success });
    assert_eq!(a, Action::AcquireImage { signal_slot: 1 });
    let a = engine.step(Event::AcquireReturned {
        outcome: GpuOutcome::OutOfDate,
        image_index: 0,
    });
    assert_eq!(a, Action::RecreateSwapchain);
    assert_eq!(engine.phase, Phase::Recreating);
    assert_eq!(engine.frame, 1);

    let a = engine.step(Event::SwapchainRebuilt { image_count: 4 });
    assert_eq!(a, Action::FrameComplete);
    assert_eq!(engine.phase, Phase::Idle);
    assert_eq!(engine.image_count, 4);

    // The next pass proceeds normally against the rebuilt resources.
    run_clean_frame(&mut engine, 1, 3);
    assert_eq!(engine.frame, 0);
}

#[test]
fn out_of_date_present_finishes_frame_then_rebuilds() {
    let mut engine = Engine::new(2);
    engine.begin_frame();
    engine.step(Event::SlotFenceWaited { outcome: GpuOutcome::Success });
    engine.step(Event::AcquireReturned { outcome: GpuOutcome::Success, image_index: 0 });
    engine.step(Event::SubmitReturned { outcome: GpuOutcome::Success });
    let a = engine.step(Event::PresentReturned { outcome: GpuOutcome::OutOfDate });
    assert_eq!(a, Action::RecreateSwapchain);
    assert_eq!(engine.frame, 1);
    let a = engine.step(Event::SwapchainRebuilt { image_count: 2 });
    assert_eq!(a, Action::FrameComplete);
    run_clean_frame(&mut engine, 1, 0);
}

#[test]
fn suboptimal_present_finishes_frame_then_rebuilds() {
    let mut engine = Engine::new(2);
    engine.begin_frame();
    engine.step(Event::SlotFenceWaited { outcome: GpuOutcome::Success });
    engine.step(Event::AcquireReturned { outcome: GpuOutcome::Success, image_index: 1 });
    engine.step(Event::SubmitReturned { outcome: GpuOutcome::Success });
    let a = engine.step(Event::PresentReturned { outcome: GpuOutcome::Suboptimal });
    assert_eq!(a, Action::RecreateSwapchain);
    assert_eq!(engine.frame, 1);
}

#[test]
fn resize_notification_rebuilds_between_frames() {
    let mut engine = Engine::new(2);
    run_clean_frame(&mut engine, 0, 0);
    let a = engine.request_recreation();
    assert_eq!(a, Action::RecreateSwapchain);
    let a = engine.step(Event::SwapchainRebuilt { image_count: 3 });
    assert_eq!(a, Action::FrameComplete);
    assert_eq!(engine.image_count, 3);
    run_clean_frame(&mut engine, 1, 2);
}

#[test]
fn device_loss_halts_the_engine() {
    let mut engine = Engine::new(2);
    engine.begin_frame();
    engine.step(Event::SlotFenceWaited { outcome: GpuOutcome::Success });
    engine.step(Event::AcquireReturned { outcome: GpuOutcome::Success, image_index: 0 });
    let a = engine.step(Event::SubmitReturned { outcome: GpuOutcome::DeviceLost });
    assert_eq!(a, Action::Halt { error: GpuOutcome::DeviceLost });
    assert_eq!(engine.phase, Phase::Halted { error: GpuOutcome::DeviceLost });
}

#[test]
fn hung_fence_wait_halts_the_engine() {
    let mut engine = Engine::new(2);
    engine.begin_frame();
    let a = engine.step(Event::SlotFenceWaited { outcome: GpuOutcome::Timeout });
    assert_eq!(a, Action::Halt { error: GpuOutcome::Timeout });
}

#[test]
fn failed_rebuild_halts_the_engine() {
    let mut engine = Engine::new(2);
    engine.request_recreation();
    let a = engine.step(Event::RebuildFailed { outcome: GpuOutcome::SurfaceLost });
    assert_eq!(a, Action::Halt { error: GpuOutcome::SurfaceLost });
}

#[test]
fn rebuild_resets_image_ownership() {
    let mut engine = Engine::new(2);
    run_clean_frame(&mut engine, 0, 0);
    assert_eq!(engine.pool.images_in_flight, vec![Some(0), None]);
    engine.request_recreation();
    engine.step(Event::SwapchainRebuilt { image_count: 2 });
    assert_eq!(engine.pool.images_in_flight, vec![None, None]);
    assert_eq!(engine.pool.fence_outstanding, vec![false, false]);
}
