use urbrs::frame::{flipped_viewport, FrameAction, FrameError, FrameEvent, FrameLoop, FrameRing, FrameStep, ViewportRect};
use urbrs::surface::Extent2D;

fn run_frame(l: &mut FrameLoop) -> usize {
    let slot = match l.on_event(FrameEvent::Tick) {
        FrameAction::Run { step: FrameStep::WaitFence, slot, image: None } => slot,
        other => panic!("unexpected {:?}", other),
    };
    assert_eq!(l.on_event(FrameEvent::Done), FrameAction::Run { step: FrameStep::ResetFence, slot, image: None });
    assert_eq!(l.on_event(FrameEvent::Done), FrameAction::Run { step: FrameStep::BeginCommands, slot, image: None });
    assert_eq!(l.on_event(FrameEvent::Done), FrameAction::Run { step: FrameStep::AcquireImage, slot, image: None });
    assert_eq!(l.on_event(FrameEvent::Acquired(1)), FrameAction::Run { step: FrameStep::Record, slot, image: Some(1) });
    assert_eq!(l.on_event(FrameEvent::Done), FrameAction::Run { step: FrameStep::Submit, slot, image: Some(1) });
    assert_eq!(l.on_event(FrameEvent::Done), FrameAction::Run { step: FrameStep::Present, slot, image: Some(1) });
    assert_eq!(l.on_event(FrameEvent::Done), FrameAction::FrameComplete);
    slot
}

#[test]
fn slots_cycle_once_per_submitted_frame() {
    let mut l = FrameLoop::new();
    let slots: Vec<usize> = (0..7).map(|_| run_frame(&mut l)).collect();
    assert_eq!(slots, vec![0, 1, 2, 0, 1, 2, 0]);
}

#[test]
fn failed_frame_keeps_its_slot() {
    let mut l = FrameLoop::new();
    l.on_event(FrameEvent::Tick);
    assert_eq!(
        l.on_event(FrameEvent::Failed(FrameError::Timeout)),
        FrameAction::FrameFailed { error: FrameError::Timeout, slot: 0, rearm_fence: false, backoff_ms: 10 }
    );
    assert_eq!(run_frame(&mut l), 0);
    l.on_event(FrameEvent::Tick);
    l.on_event(FrameEvent::Done);
    l.on_event(FrameEvent::Done);
    l.on_event(FrameEvent::Done);
    assert_eq!(
        l.on_event(FrameEvent::Failed(FrameError::VkError(-4))),
        FrameAction::FrameFailed { error: FrameError::VkError(-4), slot: 1, rearm_fence: true, backoff_ms: 10 }
    );
    assert_eq!(run_frame(&mut l), 1);
}

#[test]
fn out_of_place_events_are_ignored() {
    let mut l = FrameLoop::new();
    assert_eq!(l.on_event(FrameEvent::Done), FrameAction::Ignored);
    l.on_event(FrameEvent::Tick);
    assert_eq!(l.on_event(FrameEvent::Tick), FrameAction::Ignored);
    assert_eq!(l.on_event(FrameEvent::Acquired(0)), FrameAction::Ignored);
    assert_eq!(l.pending, Some(FrameStep::WaitFence));
}

#[test]
fn ring_wraps_after_last_slot() {
    let mut r = FrameRing::new();
    let mut seen = Vec::new();
    for _ in 0..6 {
        seen.push(r.current_slot());
        r.advance();
    }
    assert_eq!(seen, vec![0, 1, 2, 0, 1, 2]);
}

#[test]
fn viewport_is_flipped_to_y_up() {
    assert_eq!(
        flipped_viewport(Extent2D { width: 1920, height: 1080 }),
        ViewportRect { x: 0, y: 1080, width: 1920, height: -1080 }
    );
}

#[test]
fn out_of_date_swapchain_is_rebuilt() {
    let mut l = FrameLoop::new();
    l.on_event(FrameEvent::Tick);
    l.on_event(FrameEvent::Done);
    l.on_event(FrameEvent::Done);
    l.on_event(FrameEvent::Done);
    assert_eq!(
        l.on_event(FrameEvent::Failed(FrameError::OutOfDate)),
        FrameAction::RecreateSwapchain { slot: 0, rearm_fence: true, error: Some(FrameError::OutOfDate) }
    );
    assert_eq!(l.pending, None);
    assert_eq!(run_frame(&mut l), 0);
    assert_eq!(l.on_event(FrameEvent::Resized), FrameAction::RecreateSwapchain { slot: 1, rearm_fence: false, error: None });
    l.on_event(FrameEvent::Tick);
    assert_eq!(l.on_event(FrameEvent::Resized), FrameAction::Ignored);
}

#[test]
fn failure_at_present_keeps_the_submitted_fence() {
    let mut l = FrameLoop::new();
    l.on_event(FrameEvent::Tick);
    l.on_event(FrameEvent::Done);
    l.on_event(FrameEvent::Done);
    l.on_event(FrameEvent::Done);
    l.on_event(FrameEvent::Acquired(0));
    l.on_event(FrameEvent::Done);
    l.on_event(FrameEvent::Done);
    assert_eq!(
        l.on_event(FrameEvent::Failed(FrameError::OutOfDate)),
        FrameAction::RecreateSwapchain { slot: 0, rearm_fence: false, error: Some(FrameError::OutOfDate) }
    );
    assert_eq!(l.ring.slot, 1);
}

#[test]
fn repeated_failures_back_off_then_rebuild() {
    let mut l = FrameLoop::new();
    l.on_event(FrameEvent::Tick);
    assert_eq!(
        l.on_event(FrameEvent::Failed(FrameError::Timeout)),
        FrameAction::FrameFailed { error: FrameError::Timeout, slot: 0, rearm_fence: false, backoff_ms: 10 }
    );
    l.on_event(FrameEvent::Tick);
    assert_eq!(
        l.on_event(FrameEvent::Failed(FrameError::Timeout)),
        FrameAction::FrameFailed { error: FrameError::Timeout, slot: 0, rearm_fence: false, backoff_ms: 20 }
    );
    l.on_event(FrameEvent::Tick);
    assert_eq!(
        l.on_event(FrameEvent::Failed(FrameError::Timeout)),
        FrameAction::RecreateSwapchain { slot: 0, rearm_fence: false, error: Some(FrameError::Timeout) }
    );
    assert_eq!(l.failures, 0);
    l.on_event(FrameEvent::Tick);
    l.on_event(FrameEvent::Failed(FrameError::VkError(-3)));
    assert_eq!(l.failures, 1);
    assert_eq!(run_frame(&mut l), 0);
    assert_eq!(l.failures, 0);
}
