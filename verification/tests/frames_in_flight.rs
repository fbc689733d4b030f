use sim2d::frames_in_flight::{
    begin_frame_status, end_frame_status, next_frame_index, BeginFrameStatus, EndFrameStatus,
    FrameCycle,
};
use sim2d::swapchain::{AcquireImageStatus, PresentImageStatus};

#[test]
fn frame_index_wraps_around() {
    assert_eq!(next_frame_index(0, 3), 1);
    assert_eq!(next_frame_index(2, 3), 0);
    assert_eq!(next_frame_index(0, 1), 0);
}

#[test]
fn frame_cycle_visits_every_frame_and_returns() {
    let mut cycle = FrameCycle::new(3);
    assert_eq!(cycle.count(), 3);
    assert_eq!(cycle.current_frame_index(), 0);
    assert_eq!(cycle.advance(), 1);
    assert_eq!(cycle.advance(), 2);
    assert_eq!(cycle.advance(), 0);
    assert_eq!(cycle.current_frame_index(), 0);
}

#[test]
fn acquired_image_is_recorded() {
    let mut cycle = FrameCycle::new(2);
    assert!(cycle.record_acquired_image(AcquireImageStatus::ImageAcequired(5)));
    assert_eq!(cycle.swapchain_image_index(), 5);
    assert!(!cycle.record_acquired_image(AcquireImageStatus::NeedsRebuild));
    assert_eq!(cycle.swapchain_image_index(), 5);
}

#[test]
fn frame_statuses() {
    assert_eq!(begin_frame_status(true, 42), BeginFrameStatus::Acquired(42));
    assert_eq!(begin_frame_status(false, 42), BeginFrameStatus::SwapchainNeedsRebuild);
    assert_eq!(end_frame_status(PresentImageStatus::Queued), EndFrameStatus::Finished);
    assert_eq!(
        end_frame_status(PresentImageStatus::NeedsRebuild),
        EndFrameStatus::SwapchainNeedsRebuild
    );
}
