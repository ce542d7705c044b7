use veilde::error::{Stage, VeilError};
use veilde::pipeline::{PipelineCommand, PipelineLifecycle};
use veilde::scheduler::{FrameCommand, FrameScheduler, PlatformEvent};
use veilde::shaders::{versioned_source, FRAGMENT_SHADER_SOURCE, GLSL_VERSION_HEADER, VERTEX_SHADER_SOURCE};
use veilde::startup::{StartupCommand, StartupConfig, StartupSequence, StartupStep};

fn config(width: u32, height: u32, interval: u32) -> StartupConfig {
    StartupConfig {
        title: "VeilDE-rs".to_string(),
        width,
        height,
        fullscreen: false,
        decorations: false,
        transparent: true,
        presentation_interval: interval,
    }
}

/// Runs startup with the window reporting `window`, failing `failing` with
/// "nope"; returns the commands issued and the sequence.
fn run_startup(
    cfg: &StartupConfig,
    window: Result<(u32, u32), String>,
    failing: Option<StartupStep>,
) -> (Vec<StartupCommand>, StartupSequence) {
    let mut s = StartupSequence::new(cfg);
    let mut issued = Vec::new();
    loop {
        let c = s.command();
        issued.push(c);
        match c {
            StartupCommand::Complete | StartupCommand::Failed => return (issued, s),
            StartupCommand::CreateWindow => s.report_window(window.clone()),
            _ => {
                if Some(s.step) == failing {
                    s.report(Err("nope".to_string()))
                } else {
                    s.report(Ok(()))
                }
            }
        }
    }
}

#[test]
fn startup_scenario_creates_one_context_and_surface_and_draws() {
    let cfg = config(1600, 900, 1);
    let (issued, s) = run_startup(&cfg, Ok((cfg.width, cfg.height)), None);
    assert_eq!(
        issued,
        vec![
            StartupCommand::CreateWindow,
            StartupCommand::CreateContext,
            StartupCommand::CreateSurface { width: 1600, height: 900 },
            StartupCommand::MakeCurrent,
            StartupCommand::SetPresentationInterval { interval: 1 },
            StartupCommand::BindUi,
            StartupCommand::Complete,
        ]
    );
    assert_eq!(issued.iter().filter(|c| **c == StartupCommand::CreateContext).count(), 1);
    let surface = s.into_surface();
    assert_eq!((surface.width, surface.height), (1600, 900));

    let mut p = PipelineLifecycle::new();
    loop {
        match p.command() {
            PipelineCommand::Ready => break,
            PipelineCommand::Failed | PipelineCommand::Retired => panic!("pipeline did not build"),
            _ => p.report(Ok(())),
        }
    }

    let mut f = FrameScheduler::new(surface);
    f.on_event(PlatformEvent::RedrawRequested, 0);
    let mut issued = Vec::new();
    loop {
        let c = f.command();
        issued.push(c);
        if c == FrameCommand::Wait || c == FrameCommand::ExitLoop {
            break;
        }
        f.report(Ok(()));
    }
    assert!(issued.contains(&FrameCommand::DrawPipeline));
    assert!(issued.contains(&FrameCommand::Present));
    assert_eq!(*issued.last().unwrap(), FrameCommand::Wait);
    assert_eq!(f.take_fatal(), None);
}

#[test]
fn each_failing_step_maps_to_its_error() {
    let cfg = config(1600, 900, 1);
    let cases = [
        (StartupStep::CreateContext, VeilError::ContextCreation { detail: "nope".to_string() }),
        (StartupStep::CreateSurface, VeilError::SurfaceCreation { detail: "nope".to_string() }),
        (StartupStep::MakeCurrent, VeilError::ContextCreation { detail: "nope".to_string() }),
        (
            StartupStep::SetPresentationInterval,
            VeilError::PresentationInterval { detail: "nope".to_string() },
        ),
        (StartupStep::BindUi, VeilError::UiInit { detail: "nope".to_string() }),
    ];
    for (step, expected) in cases {
        let (issued, s) = run_startup(&cfg, Ok((1600, 900)), Some(step));
        assert_eq!(*issued.last().unwrap(), StartupCommand::Failed);
        assert!(!issued.contains(&StartupCommand::Complete));
        assert_eq!(s.into_error(), Some(expected));
    }
}

#[test]
fn window_failure_is_platform_error() {
    let cfg = config(1600, 900, 1);
    let (issued, s) = run_startup(&cfg, Err("no monitor".to_string()), None);
    assert_eq!(issued, vec![StartupCommand::CreateWindow, StartupCommand::Failed]);
    assert_eq!(s.into_error(), Some(VeilError::PlatformInit { detail: "no monitor".to_string() }));
}

#[test]
fn zero_client_area_fails_before_any_surface() {
    let cfg = config(1600, 900, 1);
    let (issued, s) = run_startup(&cfg, Ok((1600, 0)), None);
    assert_eq!(issued, vec![StartupCommand::CreateWindow, StartupCommand::Failed]);
    assert!(matches!(s.into_error(), Some(VeilError::SurfaceCreation { .. })));
}

#[test]
fn zero_presentation_interval_fails_before_window() {
    let cfg = config(1600, 900, 0);
    let (issued, s) = run_startup(&cfg, Ok((1600, 900)), None);
    assert_eq!(issued, vec![StartupCommand::Failed]);
    assert!(matches!(s.into_error(), Some(VeilError::PresentationInterval { .. })));
}

#[test]
fn stage_sources_carry_version_line() {
    let v = versioned_source(Stage::Vertex);
    let f = versioned_source(Stage::Fragment);
    assert_eq!(GLSL_VERSION_HEADER, "#version 330\n");
    assert_eq!(v, format!("#version 330\n{}", VERTEX_SHADER_SOURCE));
    assert_eq!(f, format!("#version 330\n{}", FRAGMENT_SHADER_SOURCE));
    assert!(v.contains("srgb_to_linear"));
    assert!(f.contains("linear_to_srgb"));
}
