use vstd::prelude::*;
use crate::error::VeilError;
use crate::surface::SurfaceState;

verus! {

/// The window and presentation options that startup works from.
#[derive(Clone, Debug)]
pub struct StartupConfig {
    pub title: String,
    /// Requested client-area size; ignored when `fullscreen` is set, where the
    /// window takes the active display's current mode.
    pub width: u32,
    pub height: u32,
    pub fullscreen: bool,
    pub decorations: bool,
    pub transparent: bool,
    /// Display refreshes per present; 1 caps presentation to the refresh rate.
    pub presentation_interval: u32,
}

/// The startup steps, in the order in which they run.
#[derive(Clone, Copy, Debug, PartialEq, Eq, Structural)]
pub enum StartupStep {
    CreateWindow,
    CreateContext,
    CreateSurface,
    MakeCurrent,
    SetPresentationInterval,
    BindUi,
    Complete,
    Failed,
}

/// What startup asks its executor to perform next.
#[derive(Clone, Copy, Debug, PartialEq, Eq, Structural)]
pub enum StartupCommand {
    /// Create the window and pick the first configuration that fits.
    CreateWindow,
    CreateContext,
    CreateSurface { width: u32, height: u32 },
    /// Make the context current on this thread.
    MakeCurrent,
    SetPresentationInterval { interval: u32 },
    BindUi,
    Complete,
    Failed,
}

/// The order-dependent, fallible creation of the window, the context, the
/// surface and the UI binding. Each failing step maps to its own error; what
/// was created before it is torn down by its owner.
pub struct StartupSequence {
    pub step: StartupStep,
    pub presentation_interval: u32,
    /// The surface, once the window's client area is known and usable.
    pub surface: Option<SurfaceState>,
    pub failure: Option<VeilError>,
}

/// The step that follows a successful `step`.
pub open spec fn step_after(step: StartupStep) -> StartupStep {
    match step {
        StartupStep::CreateWindow => StartupStep::CreateContext,
        StartupStep::CreateContext => StartupStep::CreateSurface,
        StartupStep::CreateSurface => StartupStep::MakeCurrent,
        StartupStep::MakeCurrent => StartupStep::SetPresentationInterval,
        StartupStep::SetPresentationInterval => StartupStep::BindUi,
        _ => StartupStep::Complete,
    }
}

/// The error that a failure of `step`, described by `detail`, becomes.
pub open spec fn step_error(step: StartupStep, detail: String) -> VeilError {
    match step {
        StartupStep::CreateWindow => VeilError::PlatformInit { detail },
        StartupStep::CreateContext => VeilError::ContextCreation { detail },
        StartupStep::CreateSurface => VeilError::SurfaceCreation { detail },
        StartupStep::MakeCurrent => VeilError::ContextCreation { detail },
        StartupStep::SetPresentationInterval => VeilError::PresentationInterval { detail },
        _ => VeilError::UiInit { detail },
    }
}

fn error_of(step: StartupStep, detail: String) -> (e: VeilError)
    ensures
        e == step_error(step, detail),
{
    match step {
        StartupStep::CreateWindow => VeilError::PlatformInit { detail },
        StartupStep::CreateContext => VeilError::ContextCreation { detail },
        StartupStep::CreateSurface => VeilError::SurfaceCreation { detail },
        StartupStep::MakeCurrent => VeilError::ContextCreation { detail },
        StartupStep::SetPresentationInterval => VeilError::PresentationInterval { detail },
        _ => VeilError::UiInit { detail },
    }
}

impl StartupSequence {
    pub open spec fn wf(&self) -> bool {
        &&& (self.step is Failed) <==> (self.failure is Some)
        &&& match self.step {
            StartupStep::CreateWindow | StartupStep::Failed => true,
            _ => self.surface is Some && self.surface->Some_0.wf(),
        }
    }

    pub open spec fn next_command(&self) -> StartupCommand {
        match self.step {
            StartupStep::CreateWindow => StartupCommand::CreateWindow,
            StartupStep::CreateContext => StartupCommand::CreateContext,
            StartupStep::CreateSurface => StartupCommand::CreateSurface {
                width: self.surface->Some_0.width,
                height: self.surface->Some_0.height,
            },
            StartupStep::MakeCurrent => StartupCommand::MakeCurrent,
            StartupStep::SetPresentationInterval => StartupCommand::SetPresentationInterval {
                interval: self.presentation_interval,
            },
            StartupStep::BindUi => StartupCommand::BindUi,
            StartupStep::Complete => StartupCommand::Complete,
            StartupStep::Failed => StartupCommand::Failed,
        }
    }

    /// A sequence about to create the window. A zero presentation interval is
    /// refused at once, before any window is shown.
    pub fn new(config: &StartupConfig) -> (r: StartupSequence)
        ensures
            r.wf(),
            r.presentation_interval == config.presentation_interval,
            r.surface is None,
            config.presentation_interval > 0 ==> r.step == StartupStep::CreateWindow,
            config.presentation_interval == 0 ==> r.step == StartupStep::Failed
                && r.failure->Some_0 is PresentationInterval,
    {
        if config.presentation_interval > 0 {
            StartupSequence {
                step: StartupStep::CreateWindow,
                presentation_interval: config.presentation_interval,
                surface: None,
                failure: None,
            }
        } else {
            StartupSequence {
                step: StartupStep::Failed,
                presentation_interval: 0,
                surface: None,
                failure: Some(
                    VeilError::PresentationInterval {
                        detail: String::from_str("presentation interval is zero"),
                    },
                ),
            }
        }
    }

    /// The operation to perform next.
    pub fn command(&self) -> (c: StartupCommand)
        requires
            self.wf(),
        ensures
            c == self.next_command(),
    {
        match self.step {
            StartupStep::CreateWindow => StartupCommand::CreateWindow,
            StartupStep::CreateContext => StartupCommand::CreateContext,
            StartupStep::CreateSurface => {
                let surface = self.surface.as_ref().unwrap();
                StartupCommand::CreateSurface { width: surface.width, height: surface.height }
            },
            StartupStep::MakeCurrent => StartupCommand::MakeCurrent,
            StartupStep::SetPresentationInterval => StartupCommand::SetPresentationInterval {
                interval: self.presentation_interval,
            },
            StartupStep::BindUi => StartupCommand::BindUi,
            StartupStep::Complete => StartupCommand::Complete,
            StartupStep::Failed => StartupCommand::Failed,
        }
    }

    /// Records the window step: on success, the window's client-area size,
    /// which the surface will take. A degenerate size fails fast, before any
    /// surface is attempted.
    pub fn report_window(&mut self, outcome: Result<(u32, u32), String>)
        requires
            old(self).wf(),
            old(self).step == StartupStep::CreateWindow,
        ensures
            final(self).wf(),
            final(self).presentation_interval == old(self).presentation_interval,
            match outcome {
                Ok((width, height)) => if width > 0 && height > 0 {
                    &&& final(self).step == StartupStep::CreateContext
                    &&& final(self).surface is Some
                    &&& final(self).surface->Some_0.width == width
                    &&& final(self).surface->Some_0.height == height
                } else {
                    &&& final(self).step == StartupStep::Failed
                    &&& final(self).failure->Some_0 is SurfaceCreation
                },
                Err(detail) => {
                    &&& final(self).step == StartupStep::Failed
                    &&& final(self).failure == Some(VeilError::PlatformInit { detail })
                },
            },
    {
        match outcome {
            Ok((width, height)) => match SurfaceState::create(width, height) {
                Ok(surface) => {
                    self.surface = Some(surface);
                    self.step = StartupStep::CreateContext;
                },
                Err(e) => {
                    self.step = StartupStep::Failed;
                    self.failure = Some(e);
                },
            },
            Err(detail) => {
                self.step = StartupStep::Failed;
                self.failure = Some(VeilError::PlatformInit { detail });
            },
        }
    }

    /// Records the outcome of any later step: success moves to the next step,
    /// failure ends startup with that step's error.
    pub fn report(&mut self, outcome: Result<(), String>)
        requires
            old(self).wf(),
            !(old(self).step is CreateWindow),
            !(old(self).step is Complete),
            !(old(self).step is Failed),
        ensures
            final(self).wf(),
            final(self).surface == old(self).surface,
            final(self).presentation_interval == old(self).presentation_interval,
            match outcome {
                Ok(_) => final(self).step == step_after(old(self).step) && final(self).failure is None,
                Err(detail) => {
                    &&& final(self).step == StartupStep::Failed
                    &&& final(self).failure == Some(step_error(old(self).step, detail))
                },
            },
    {
        match outcome {
            Ok(_) => {
                self.step = match self.step {
                    StartupStep::CreateContext => StartupStep::CreateSurface,
                    StartupStep::CreateSurface => StartupStep::MakeCurrent,
                    StartupStep::MakeCurrent => StartupStep::SetPresentationInterval,
                    StartupStep::SetPresentationInterval => StartupStep::BindUi,
                    _ => StartupStep::Complete,
                };
            },
            Err(detail) => {
                let e = error_of(self.step, detail);
                self.step = StartupStep::Failed;
                self.failure = Some(e);
            },
        }
    }

    /// The surface of a completed startup, for the frame loop.
    pub fn into_surface(self) -> (s: SurfaceState)
        requires
            self.wf(),
            self.step is Complete,
        ensures
            s.wf(),
            s == self.surface->Some_0,
    {
        self.surface.unwrap()
    }

    /// The error that ended startup, if it failed.
    pub fn into_error(self) -> (e: Option<VeilError>)
        ensures
            e == self.failure,
    {
        self.failure
    }
}

} // verus!
