use present_engine::frames::FramePool;
use present_engine::MAX_FRAMES_IN_FLIGHT;

#[test]
fn two_frames_in_flight() {
    assert_eq!(MAX_FRAMES_IN_FLIGHT, 2);
}

#[test]
fn fresh_pool_owes_no_waits_and_claims_no_images() {
    let pool = FramePool::new(3);
    assert_eq!(pool.fence_outstanding, vec![false, false]);
    assert_eq!(pool.images_in_flight, vec![None, None, None]);
}

#[test]
fn marking_and_looking_up_image_owners() {
    let mut pool = FramePool::new(3);
    assert_eq!(pool.fence_for(1), None);
    pool.mark_in_use(1, 0);
    assert_eq!(pool.fence_for(1), Some(0));
    assert_eq!(pool.fence_for(0), None);
    pool.mark_in_use(1, 1);
    assert_eq!(pool.fence_for(1), Some(1));
}

#[test]
fn fence_bookkeeping_tracks_observations() {
    let mut pool = FramePool::new(2);
    pool.mark_outstanding(0);
    assert_eq!(pool.fence_outstanding, vec![true, false]);
    pool.mark_outstanding(1);
    assert_eq!(pool.fence_outstanding, vec![true, true]);
    pool.observe_signaled(0);
    assert_eq!(pool.fence_outstanding, vec![false, true]);
}
