use lvkrs::frame_ring::FrameRing;
use lvkrs::render_loop::{FrameAction, FrameEvent, Phase, RenderLoopDriver};

fn run_frame(d: &mut RenderLoopDriver, image_index: u32) -> FrameAction {
    let slot = d.slot();
    assert_eq!(d.step(FrameEvent::RedrawRequested), FrameAction::Acquire { slot });
    assert_eq!(
        d.step(FrameEvent::Acquired { image_index, suboptimal: false }),
        FrameAction::WaitFence { slot }
    );
    assert_eq!(
        d.step(FrameEvent::FenceSignaled),
        FrameAction::RecordAndSubmit { slot, image_index }
    );
    assert_eq!(d.step(FrameEvent::Submitted), FrameAction::Present { slot, image_index });
    d.step(FrameEvent::Presented { suboptimal: false })
}

#[test]
fn frame_runs_in_order_and_cursor_wraps() {
    let mut d = RenderLoopDriver::new(2, 3);
    assert_eq!(d.phase(), Phase::Ready);
    assert_eq!(d.slot(), 0);
    assert_eq!(run_frame(&mut d, 0), FrameAction::Idle);
    assert_eq!(d.slot(), 1);
    assert_eq!(run_frame(&mut d, 1), FrameAction::Idle);
    assert_eq!(d.slot(), 0);
    assert_eq!(run_frame(&mut d, 2), FrameAction::Idle);
    assert_eq!(d.slot(), 1);
}

#[test]
fn in_flight_never_exceeds_slots() {
    for n in 1..4usize {
        let mut d = RenderLoopDriver::new(n, 3);
        for k in 0..20u32 {
            run_frame(&mut d, k % 3);
            assert!(d.in_flight() <= n);
            assert!(d.in_flight() >= 1);
        }
        assert_eq!(d.in_flight(), n);
    }
}

#[test]
fn fence_wait_completes_slot_before_resubmit() {
    let mut d = RenderLoopDriver::new(1, 2);
    run_frame(&mut d, 0);
    assert_eq!(d.in_flight(), 1);
    d.step(FrameEvent::RedrawRequested);
    d.step(FrameEvent::Acquired { image_index: 1, suboptimal: true });
    assert_eq!(d.in_flight(), 1);
    d.step(FrameEvent::FenceSignaled);
    assert_eq!(d.in_flight(), 0);
    d.step(FrameEvent::Submitted);
    assert_eq!(d.in_flight(), 1);
}

#[test]
fn fence_timeout_retries() {
    let mut d = RenderLoopDriver::new(2, 3);
    d.step(FrameEvent::RedrawRequested);
    d.step(FrameEvent::Acquired { image_index: 0, suboptimal: false });
    assert_eq!(d.step(FrameEvent::FenceTimeout), FrameAction::WaitFence { slot: 0 });
    assert_eq!(d.step(FrameEvent::FenceTimeout), FrameAction::WaitFence { slot: 0 });
    assert_eq!(d.phase(), Phase::WaitingFence);
    assert_eq!(d.step(FrameEvent::FenceSignaled), FrameAction::RecordAndSubmit { slot: 0, image_index: 0 });
}

#[test]
fn stale_acquire_rebuilds_before_next_acquire() {
    let mut d = RenderLoopDriver::new(2, 3);
    run_frame(&mut d, 0);
    let in_flight = d.in_flight();
    assert_eq!(d.step(FrameEvent::RedrawRequested), FrameAction::Acquire { slot: 1 });
    assert_eq!(d.step(FrameEvent::AcquireOutOfDate), FrameAction::RebuildSwapchain);
    assert_eq!(d.phase(), Phase::Rebuilding);
    // nothing was submitted for the abandoned frame
    assert_eq!(d.in_flight(), in_flight);
    assert_eq!(d.slot(), 1);
    // no acquire until the rebuild is done
    assert_eq!(d.step(FrameEvent::RedrawRequested), FrameAction::Ignore);
    assert_eq!(d.step(FrameEvent::Submitted), FrameAction::Ignore);
    assert_eq!(d.phase(), Phase::Rebuilding);
    assert_eq!(d.step(FrameEvent::SwapchainRebuilt { image_count: 4 }), FrameAction::Idle);
    assert_eq!(d.step(FrameEvent::RedrawRequested), FrameAction::Acquire { slot: 1 });
    assert_eq!(
        d.step(FrameEvent::Acquired { image_index: 3, suboptimal: false }),
        FrameAction::WaitFence { slot: 1 }
    );
}

#[test]
fn suboptimal_present_is_only_reported() {
    let mut d = RenderLoopDriver::new(2, 3);
    d.step(FrameEvent::RedrawRequested);
    d.step(FrameEvent::Acquired { image_index: 2, suboptimal: false });
    d.step(FrameEvent::FenceSignaled);
    d.step(FrameEvent::Submitted);
    assert_eq!(d.step(FrameEvent::Presented { suboptimal: true }), FrameAction::ReportSuboptimal);
    assert_eq!(d.phase(), Phase::Ready);
    assert_eq!(d.slot(), 1);
}

#[test]
fn stale_present_rebuilds_after_the_frame() {
    let mut d = RenderLoopDriver::new(2, 3);
    d.step(FrameEvent::RedrawRequested);
    d.step(FrameEvent::Acquired { image_index: 0, suboptimal: false });
    d.step(FrameEvent::FenceSignaled);
    d.step(FrameEvent::Submitted);
    assert_eq!(d.step(FrameEvent::PresentOutOfDate), FrameAction::RebuildSwapchain);
    assert_eq!(d.phase(), Phase::Rebuilding);
    assert_eq!(d.slot(), 1);
    assert_eq!(d.in_flight(), 1);
}

#[test]
fn failures_are_fatal() {
    let mut d = RenderLoopDriver::new(2, 3);
    d.step(FrameEvent::RedrawRequested);
    assert_eq!(d.step(FrameEvent::AcquireFailed), FrameAction::Fatal);
    assert_eq!(d.phase(), Phase::Failed);
    assert_eq!(d.step(FrameEvent::RedrawRequested), FrameAction::Ignore);

    let mut d = RenderLoopDriver::new(2, 3);
    d.step(FrameEvent::RedrawRequested);
    assert_eq!(d.step(FrameEvent::Acquired { image_index: 3, suboptimal: false }), FrameAction::Fatal);

    let mut d = RenderLoopDriver::new(2, 3);
    d.step(FrameEvent::RedrawRequested);
    d.step(FrameEvent::Acquired { image_index: 0, suboptimal: false });
    assert_eq!(d.step(FrameEvent::FenceFailed), FrameAction::Fatal);

    let mut d = RenderLoopDriver::new(2, 3);
    d.step(FrameEvent::RedrawRequested);
    d.step(FrameEvent::Acquired { image_index: 0, suboptimal: false });
    d.step(FrameEvent::FenceSignaled);
    assert_eq!(d.step(FrameEvent::SubmitFailed), FrameAction::Fatal);

    let mut d = RenderLoopDriver::new(2, 3);
    d.step(FrameEvent::RedrawRequested);
    d.step(FrameEvent::Acquired { image_index: 0, suboptimal: false });
    d.step(FrameEvent::FenceSignaled);
    d.step(FrameEvent::Submitted);
    assert_eq!(d.step(FrameEvent::PresentFailed), FrameAction::Fatal);
}

#[test]
fn events_out_of_turn_are_ignored() {
    let mut d = RenderLoopDriver::new(2, 3);
    assert_eq!(d.step(FrameEvent::FenceSignaled), FrameAction::Ignore);
    assert_eq!(d.step(FrameEvent::Presented { suboptimal: false }), FrameAction::Ignore);
    assert_eq!(d.phase(), Phase::Ready);
    assert_eq!(d.in_flight(), 0);
}

#[test]
fn ring_tracks_pending_slots() {
    let mut r = FrameRing::new(3);
    assert_eq!(r.frames_in_flight(), 3);
    assert_eq!(r.in_flight(), 0);
    r.mark_submitted();
    assert!(r.is_pending(0));
    r.advance();
    r.mark_submitted();
    r.advance();
    r.mark_submitted();
    assert_eq!(r.in_flight(), 3);
    r.advance();
    assert_eq!(r.cursor(), 0);
    r.complete_current();
    assert!(!r.is_pending(0));
    assert_eq!(r.in_flight(), 2);
}

#[test]
fn resize_between_frames_rebuilds() {
    let mut d = RenderLoopDriver::new(2, 3);
    run_frame(&mut d, 0);
    assert_eq!(d.step(FrameEvent::Resized), FrameAction::RebuildSwapchain);
    assert_eq!(d.phase(), Phase::Rebuilding);
    assert_eq!(d.slot(), 1);
    assert_eq!(d.step(FrameEvent::Resized), FrameAction::Ignore);
    assert_eq!(d.step(FrameEvent::SwapchainRebuilt { image_count: 2 }), FrameAction::Idle);
    d.step(FrameEvent::RedrawRequested);
    assert_eq!(d.step(FrameEvent::Acquired { image_index: 2, suboptimal: false }), FrameAction::Fatal);
}

#[test]
fn resize_mid_frame_is_ignored() {
    let mut d = RenderLoopDriver::new(2, 3);
    d.step(FrameEvent::RedrawRequested);
    assert_eq!(d.step(FrameEvent::Resized), FrameAction::Ignore);
    assert_eq!(d.phase(), Phase::Acquiring);
}
