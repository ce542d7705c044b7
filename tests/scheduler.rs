use veilde::error::VeilError;
use veilde::scheduler::{FrameCommand, FrameScheduler, Phase, PlatformEvent};
use veilde::surface::{SurfaceState, Viewport};

fn scheduler(width: u32, height: u32) -> FrameScheduler {
    FrameScheduler::new(SurfaceState::create(width, height).unwrap())
}

/// Delivers one event and performs its commands until the scheduler waits or
/// stops, answering each with `answer`; returns the commands issued.
fn deliver<F: Fn(FrameCommand) -> Result<(), String>>(
    s: &mut FrameScheduler,
    event: PlatformEvent,
    now: u64,
    answer: F,
) -> Vec<FrameCommand> {
    s.on_event(event, now);
    let mut issued = Vec::new();
    loop {
        let c = s.command();
        issued.push(c);
        match c {
            FrameCommand::Wait | FrameCommand::ExitLoop => return issued,
            _ => s.report(answer(c)),
        }
    }
}

#[test]
fn redraw_runs_the_frame_in_order() {
    let mut s = scheduler(1600, 900);
    let issued = deliver(&mut s, PlatformEvent::RedrawRequested, 1_000, |_| Ok(()));
    assert_eq!(
        issued,
        vec![
            FrameCommand::TranslateInput,
            FrameCommand::ClearFrame,
            FrameCommand::DrawPipeline,
            FrameCommand::BeginUi { delta_nanos: 0 },
            FrameCommand::BuildUi,
            FrameCommand::RenderUi,
            FrameCommand::Present,
            FrameCommand::RequestRedraw,
            FrameCommand::Wait,
        ]
    );
}

#[test]
fn second_frame_measures_elapsed_time() {
    let mut s = scheduler(1600, 900);
    deliver(&mut s, PlatformEvent::RedrawRequested, 5_000_000, |_| Ok(()));
    deliver(&mut s, PlatformEvent::Input, 9_000_000, |_| Ok(()));
    let issued = deliver(&mut s, PlatformEvent::RedrawRequested, 21_666_667, |_| Ok(()));
    assert!(issued.contains(&FrameCommand::BeginUi { delta_nanos: 16_666_667 }));
}

#[test]
fn abort_during_build_stops_before_render_and_present() {
    let mut s = scheduler(1600, 900);
    let issued = deliver(&mut s, PlatformEvent::RedrawRequested, 0, |c| match c {
        FrameCommand::BuildUi => Err("boom".to_string()),
        _ => Ok(()),
    });
    assert_eq!(*issued.last().unwrap(), FrameCommand::ExitLoop);
    assert!(!issued.contains(&FrameCommand::RenderUi));
    assert!(!issued.contains(&FrameCommand::Present));
    assert_eq!(s.phase, Phase::Stopped);
    let later = deliver(&mut s, PlatformEvent::RedrawRequested, 10, |_| Ok(()));
    assert_eq!(later, vec![FrameCommand::ExitLoop]);
    assert_eq!(
        s.take_fatal(),
        Some(VeilError::ApplicationAbortRequested { reason: "boom".to_string() })
    );
    assert_eq!(s.take_fatal(), None);
}

#[test]
fn present_failure_is_fatal() {
    let mut s = scheduler(800, 600);
    let issued = deliver(&mut s, PlatformEvent::RedrawRequested, 0, |c| match c {
        FrameCommand::Present => Err("swap failed".to_string()),
        _ => Ok(()),
    });
    assert_eq!(*issued.last().unwrap(), FrameCommand::ExitLoop);
    assert!(!issued.contains(&FrameCommand::RequestRedraw));
    assert_eq!(s.take_fatal(), Some(VeilError::PresentFailure { detail: "swap failed".to_string() }));
}

#[test]
fn draw_and_ui_render_failures_are_fatal() {
    let mut s = scheduler(800, 600);
    deliver(&mut s, PlatformEvent::RedrawRequested, 0, |c| match c {
        FrameCommand::DrawPipeline => Err("draw".to_string()),
        _ => Ok(()),
    });
    assert_eq!(s.take_fatal(), Some(VeilError::DrawFailure { detail: "draw".to_string() }));

    let mut s = scheduler(800, 600);
    let issued = deliver(&mut s, PlatformEvent::RedrawRequested, 0, |c| match c {
        FrameCommand::RenderUi => Err("ui draw data".to_string()),
        _ => Ok(()),
    });
    assert!(!issued.contains(&FrameCommand::Present));
    assert_eq!(s.take_fatal(), Some(VeilError::DrawFailure { detail: "ui draw data".to_string() }));
}

#[test]
fn close_shuts_down_requests_redraw_and_exits() {
    let mut s = scheduler(1600, 900);
    let issued = deliver(&mut s, PlatformEvent::CloseRequested, 0, |_| Ok(()));
    assert_eq!(
        issued,
        vec![
            FrameCommand::TranslateInput,
            FrameCommand::ShutdownPipeline,
            FrameCommand::RequestRedraw,
            FrameCommand::ExitLoop,
        ]
    );
    assert_eq!(s.take_fatal(), None);
}

#[test]
fn input_events_are_translated_then_redraw_requested() {
    let mut s = scheduler(1600, 900);
    let issued = deliver(&mut s, PlatformEvent::Input, 0, |_| Ok(()));
    assert_eq!(
        issued,
        vec![FrameCommand::TranslateInput, FrameCommand::RequestRedraw, FrameCommand::Wait]
    );
}

#[test]
fn resize_sequence_ends_at_last_size() {
    let mut s = scheduler(1600, 900);
    let first = deliver(&mut s, PlatformEvent::Resized { width: 1600, height: 900 }, 0, |_| Ok(()));
    assert!(first.contains(&FrameCommand::ResizeSurface { width: 1600, height: 900 }));
    let before = s.surface;
    let minimized = deliver(&mut s, PlatformEvent::Resized { width: 0, height: 0 }, 0, |_| Ok(()));
    assert_eq!(
        minimized,
        vec![FrameCommand::TranslateInput, FrameCommand::RequestRedraw, FrameCommand::Wait]
    );
    assert_eq!(s.surface, before);
    let last = deliver(&mut s, PlatformEvent::Resized { width: 800, height: 600 }, 0, |_| Ok(()));
    assert!(last.contains(&FrameCommand::ResizeSurface { width: 800, height: 600 }));
    assert_eq!((s.surface.width, s.surface.height), (800, 600));
    assert_eq!(s.surface.viewport, Viewport { x: 0, y: 0, width: 800, height: 600 });
}

#[test]
fn resize_then_present_succeeds_at_any_size() {
    for (w, h) in [(1u32, 1u32), (1, 4096), (u32::MAX, u32::MAX), (3840, 2160)] {
        let mut s = scheduler(1600, 900);
        deliver(&mut s, PlatformEvent::Resized { width: w, height: h }, 0, |_| Ok(()));
        assert_eq!(s.surface.viewport, Viewport { x: 0, y: 0, width: w, height: h });
        let frame = deliver(&mut s, PlatformEvent::RedrawRequested, 0, |_| Ok(()));
        assert!(frame.contains(&FrameCommand::Present));
        assert_eq!(*frame.last().unwrap(), FrameCommand::Wait);
    }
}

#[test]
fn first_error_of_a_run_is_kept() {
    let mut s = scheduler(800, 600);
    deliver(&mut s, PlatformEvent::RedrawRequested, 0, |c| match c {
        FrameCommand::Present => Err("first".to_string()),
        _ => Ok(()),
    });
    s.fatal.record(VeilError::DrawFailure { detail: "second".to_string() });
    assert_eq!(s.take_fatal(), Some(VeilError::PresentFailure { detail: "first".to_string() }));
}
