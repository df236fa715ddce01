use broth::frame::{
    AcquireDecision, AcquireOutcome, FrameScheduler, Phase, PresentDecision, PresentOutcome,
};
use broth::MAX_FRAMES_IN_FLIGHT;

fn run_normal_tick(scheduler: &mut FrameScheduler, image: u32) -> Option<usize> {
    scheduler.complete_throttle();
    let decision = scheduler.handle_acquire(AcquireOutcome::Acquired(image));
    let hazard = match decision {
        AcquireDecision::Proceed { image: got, hazard } => {
            assert_eq!(got, image as usize);
            hazard
        }
        other => panic!("expected a proceed decision, got {:?}", other),
    };
    scheduler.complete_submit();
    let present = scheduler.handle_present(PresentOutcome::Success);
    assert_eq!(present, PresentDecision::Continue);
    scheduler.advance();
    hazard
}

#[test]
fn two_frames_in_flight() {
    assert_eq!(MAX_FRAMES_IN_FLIGHT, 2);
}

#[test]
fn normal_tick_advances_the_frame_slot() {
    let mut scheduler = FrameScheduler::new(3);
    assert_eq!(scheduler.current_frame(), 0);
    assert_eq!(scheduler.image_len(), 3);
    let hazard = run_normal_tick(&mut scheduler, 1);
    assert_eq!(hazard, None);
    assert_eq!(scheduler.current_frame(), 1);
    let hazard = run_normal_tick(&mut scheduler, 2);
    assert_eq!(hazard, None);
    assert_eq!(scheduler.current_frame(), 0);
}

#[test]
fn reacquired_image_names_the_hazard_fence() {
    // One swapchain image, two frame slots: the second tick reuses the
    // image while slot 0's submission is still in flight, so the
    // scheduler must demand a wait on slot 0's fence.
    let mut scheduler = FrameScheduler::new(1);
    let hazard = run_normal_tick(&mut scheduler, 0);
    assert_eq!(hazard, None);
    let hazard = run_normal_tick(&mut scheduler, 0);
    assert_eq!(hazard, Some(0));
    // Slot 0's fence was waited during the second tick, so the third
    // tick sees only slot 1's submission on the image.
    let hazard = run_normal_tick(&mut scheduler, 0);
    assert_eq!(hazard, Some(1));
}

#[test]
fn out_of_date_acquire_recreates_without_submitting() {
    let mut scheduler = FrameScheduler::new(2);
    scheduler.complete_throttle();
    let decision = scheduler.handle_acquire(AcquireOutcome::OutOfDate);
    assert_eq!(decision, AcquireDecision::Recreate);
    assert_eq!(scheduler.current_phase(), Phase::RecreatingThenIdle);
    scheduler.complete_recreation(3);
    // The tick ended without submitting or presenting: the frame slot
    // did not advance, and the new table is empty.
    assert_eq!(scheduler.current_frame(), 0);
    assert_eq!(scheduler.image_len(), 3);
    let hazard = run_normal_tick(&mut scheduler, 0);
    assert_eq!(hazard, None);
    assert_eq!(scheduler.current_frame(), 1);
}

#[test]
fn acquire_failure_is_fatal() {
    let mut scheduler = FrameScheduler::new(2);
    scheduler.complete_throttle();
    let decision = scheduler.handle_acquire(AcquireOutcome::Failure(-4));
    assert_eq!(decision, AcquireDecision::Fail(-4));
}

#[test]
fn suboptimal_present_completes_then_recreates() {
    let mut scheduler = FrameScheduler::new(2);
    scheduler.complete_throttle();
    let decision = scheduler.handle_acquire(AcquireOutcome::Acquired(0));
    assert!(matches!(decision, AcquireDecision::Proceed { image: 0, hazard: None }));
    scheduler.complete_submit();
    let present = scheduler.handle_present(PresentOutcome::Suboptimal);
    // The image was presented; the cascade runs afterwards and the
    // frame slot still advances.
    assert_eq!(present, PresentDecision::Recreate);
    assert_eq!(scheduler.current_phase(), Phase::RecreatingThenAdvance);
    scheduler.complete_recreation(2);
    scheduler.advance();
    assert_eq!(scheduler.current_frame(), 1);
}

#[test]
fn out_of_date_present_recreates() {
    let mut scheduler = FrameScheduler::new(2);
    scheduler.complete_throttle();
    scheduler.handle_acquire(AcquireOutcome::Acquired(1));
    scheduler.complete_submit();
    let present = scheduler.handle_present(PresentOutcome::OutOfDate);
    assert_eq!(present, PresentDecision::Recreate);
}

#[test]
fn resize_flag_forces_recreation_after_successful_present() {
    let mut scheduler = FrameScheduler::new(2);
    scheduler.set_resized();
    scheduler.complete_throttle();
    scheduler.handle_acquire(AcquireOutcome::Acquired(0));
    scheduler.complete_submit();
    let present = scheduler.handle_present(PresentOutcome::Success);
    assert_eq!(present, PresentDecision::Recreate);
    scheduler.complete_recreation(2);
    scheduler.advance();
    // The flag was consumed: the next successful present continues.
    scheduler.complete_throttle();
    scheduler.handle_acquire(AcquireOutcome::Acquired(0));
    scheduler.complete_submit();
    assert_eq!(scheduler.handle_present(PresentOutcome::Success), PresentDecision::Continue);
}

#[test]
fn present_failure_without_resize_is_fatal() {
    let mut scheduler = FrameScheduler::new(2);
    scheduler.complete_throttle();
    scheduler.handle_acquire(AcquireOutcome::Acquired(0));
    scheduler.complete_submit();
    let present = scheduler.handle_present(PresentOutcome::Failure(-3));
    assert_eq!(present, PresentDecision::Fail(-3));
}

#[test]
fn phases_follow_the_tick_protocol() {
    let mut scheduler = FrameScheduler::new(2);
    assert_eq!(scheduler.current_phase(), Phase::Idle);
    scheduler.complete_throttle();
    assert_eq!(scheduler.current_phase(), Phase::Acquiring);
    scheduler.handle_acquire(AcquireOutcome::Acquired(0));
    assert_eq!(scheduler.current_phase(), Phase::Recording);
    scheduler.complete_submit();
    assert_eq!(scheduler.current_phase(), Phase::Presenting);
    scheduler.handle_present(PresentOutcome::Success);
    assert_eq!(scheduler.current_phase(), Phase::Advancing);
    scheduler.advance();
    assert_eq!(scheduler.current_phase(), Phase::Idle);
}
