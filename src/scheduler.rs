use vstd::prelude::*;
use crate::clock::{frame_delta, FrameClock};
use crate::error::VeilError;
use crate::fatal::{recorded, FatalSlot};
use crate::surface::{resized, SurfaceState, Viewport};

verus! {

/// A platform notification, as far as the scheduler's decisions go. Keyboard,
/// pointer, scroll and button events are all `Input`: they only feed the UI
/// input translator.
#[derive(Clone, Copy, Debug, PartialEq, Eq, Structural)]
pub enum PlatformEvent {
    CloseRequested,
    RedrawRequested,
    Resized { width: u32, height: u32 },
    Input,
}

/// The steps of one frame, in the order in which they run.
#[derive(Clone, Copy, Debug, PartialEq, Eq, Structural)]
pub enum FrameStep {
    Clear,
    DrawPipeline,
    BeginUi,
    BuildUi,
    RenderUi,
    Present,
}

/// What follows the translation of an event's input.
#[derive(Clone, Copy, Debug, PartialEq, Eq, Structural)]
pub enum AfterInput {
    Shutdown,
    Frame,
    ResizeSurface,
    RequestRedraw,
}

#[derive(Clone, Copy, Debug, PartialEq, Eq, Structural)]
pub enum Phase {
    /// Waiting for the next platform event.
    Idle,
    Translating(AfterInput),
    ResizingSurface,
    ShuttingDown,
    Frame(FrameStep),
    RequestingRedraw,
    /// The redraw request that follows a close, after which the loop stops.
    RequestingFinalRedraw,
    /// The loop has been told to stop; nothing more happens.
    Stopped,
}

/// What the scheduler asks the event loop to perform next.
#[derive(Clone, Copy, Debug, PartialEq, Eq, Structural)]
pub enum FrameCommand {
    /// Hand over the next platform event.
    Wait,
    /// Forward the raw event to the UI input translator.
    TranslateInput,
    /// Resize the back buffer and set the viewport to `(0, 0, width, height)`.
    ResizeSurface { width: u32, height: u32 },
    /// Release the GPU pipeline and tear the context down.
    ShutdownPipeline,
    ClearFrame,
    DrawPipeline,
    /// Start a UI frame with this delta time, in nanoseconds.
    BeginUi { delta_nanos: u64 },
    /// Run the application's UI construction; an error asks for an abort.
    BuildUi,
    /// End the UI frame and submit its draw data.
    RenderUi,
    Present,
    RequestRedraw,
    /// Stop dispatching events.
    ExitLoop,
}

/// The per-event frame loop: it turns platform events into the sequence of
/// operations that the event loop performs, tracks the surface size and the
/// frame clock, and funnels the first failure into the fatal slot.
pub struct FrameScheduler {
    pub surface: SurfaceState,
    pub clock: FrameClock,
    pub phase: Phase,
    /// The delta time of the frame in progress.
    pub frame_delta: u64,
    pub fatal: FatalSlot,
}

/// The phase after a step that failed with `e`, and the slot after it.
pub open spec fn stopped_with(s: FrameScheduler, e: VeilError) -> FrameScheduler {
    FrameScheduler {
        phase: Phase::Stopped,
        fatal: FatalSlot { error: recorded(s.fatal.error, e) },
        ..s
    }
}

pub open spec fn with_phase(s: FrameScheduler, phase: Phase) -> FrameScheduler {
    FrameScheduler { phase, ..s }
}

/// The scheduler after `event` arrives at time `now`. A stopped scheduler
/// ignores events. Otherwise the event's input is translated first; a redraw
/// starts a frame and measures its delta time; a resize is applied to the
/// surface at once, and reaches the GPU only when it is not degenerate.
pub open spec fn handled(s: FrameScheduler, event: PlatformEvent, now: u64) -> FrameScheduler {
    if s.phase is Stopped {
        s
    } else {
        match event {
            PlatformEvent::CloseRequested => with_phase(s, Phase::Translating(AfterInput::Shutdown)),
            PlatformEvent::RedrawRequested => FrameScheduler {
                phase: Phase::Translating(AfterInput::Frame),
                clock: FrameClock { last_frame: Some(now) },
                frame_delta: frame_delta(s.clock.last_frame, now),
                ..s
            },
            PlatformEvent::Resized { width, height } => FrameScheduler {
                phase: Phase::Translating(
                    if width > 0 && height > 0 {
                        AfterInput::ResizeSurface
                    } else {
                        AfterInput::RequestRedraw
                    },
                ),
                surface: resized(s.surface, width, height),
                ..s
            },
            PlatformEvent::Input => with_phase(s, Phase::Translating(AfterInput::RequestRedraw)),
        }
    }
}

/// The scheduler after the current command ended with `outcome`. A frame runs
/// clear, pipeline draw, UI begin, build, render, and present, in that order.
/// Every event handled without error then asks for another redraw; after a
/// close the loop stops once that request is made. The first failing step
/// stops the loop at once, with its error in the fatal slot; an error from the
/// UI build is an abort request. Steps that cannot fail disregard the outcome.
pub open spec fn reported(s: FrameScheduler, outcome: Result<(), String>) -> FrameScheduler {
    match s.phase {
        Phase::Translating(after) => with_phase(
            s,
            match after {
                AfterInput::Shutdown => Phase::ShuttingDown,
                AfterInput::Frame => Phase::Frame(FrameStep::Clear),
                AfterInput::ResizeSurface => Phase::ResizingSurface,
                AfterInput::RequestRedraw => Phase::RequestingRedraw,
            },
        ),
        Phase::ResizingSurface => with_phase(s, Phase::RequestingRedraw),
        Phase::ShuttingDown => with_phase(s, Phase::RequestingFinalRedraw),
        Phase::Frame(step) => match step {
            FrameStep::Clear => with_phase(s, Phase::Frame(FrameStep::DrawPipeline)),
            FrameStep::DrawPipeline => match outcome {
                Ok(_) => with_phase(s, Phase::Frame(FrameStep::BeginUi)),
                Err(detail) => stopped_with(s, VeilError::DrawFailure { detail }),
            },
            FrameStep::BeginUi => with_phase(s, Phase::Frame(FrameStep::BuildUi)),
            FrameStep::BuildUi => match outcome {
                Ok(_) => with_phase(s, Phase::Frame(FrameStep::RenderUi)),
                Err(reason) => stopped_with(s, VeilError::ApplicationAbortRequested { reason }),
            },
            FrameStep::RenderUi => match outcome {
                Ok(_) => with_phase(s, Phase::Frame(FrameStep::Present)),
                Err(detail) => stopped_with(s, VeilError::DrawFailure { detail }),
            },
            FrameStep::Present => match outcome {
                Ok(_) => with_phase(s, Phase::RequestingRedraw),
                Err(detail) => stopped_with(s, VeilError::PresentFailure { detail }),
            },
        },
        Phase::RequestingRedraw => with_phase(s, Phase::Idle),
        Phase::RequestingFinalRedraw => with_phase(s, Phase::Stopped),
        _ => s,
    }
}

impl FrameScheduler {
    /// The surface is usable, and the fatal slot stays empty while the loop
    /// runs: the error in it is the one that stopped the loop.
    pub open spec fn wf(&self) -> bool {
        &&& self.surface.wf()
        &&& !(self.phase is Stopped) ==> self.fatal.error is None
    }

    pub open spec fn next_command(&self) -> FrameCommand {
        match self.phase {
            Phase::Idle => FrameCommand::Wait,
            Phase::Translating(_) => FrameCommand::TranslateInput,
            Phase::ResizingSurface => FrameCommand::ResizeSurface {
                width: self.surface.width,
                height: self.surface.height,
            },
            Phase::ShuttingDown => FrameCommand::ShutdownPipeline,
            Phase::Frame(step) => match step {
                FrameStep::Clear => FrameCommand::ClearFrame,
                FrameStep::DrawPipeline => FrameCommand::DrawPipeline,
                FrameStep::BeginUi => FrameCommand::BeginUi { delta_nanos: self.frame_delta },
                FrameStep::BuildUi => FrameCommand::BuildUi,
                FrameStep::RenderUi => FrameCommand::RenderUi,
                FrameStep::Present => FrameCommand::Present,
            },
            Phase::RequestingRedraw => FrameCommand::RequestRedraw,
            Phase::RequestingFinalRedraw => FrameCommand::RequestRedraw,
            Phase::Stopped => FrameCommand::ExitLoop,
        }
    }

    /// A scheduler for a freshly started surface: idle, with no frame seen.
    pub fn new(surface: SurfaceState) -> (r: FrameScheduler)
        requires
            surface.wf(),
        ensures
            r.wf(),
            r.surface == surface,
            r.clock.last_frame is None,
            r.phase == Phase::Idle,
            r.fatal.error is None,
    {
        FrameScheduler {
            surface,
            clock: FrameClock::new(),
            phase: Phase::Idle,
            frame_delta: 0,
            fatal: FatalSlot::new(),
        }
    }

    /// The operation to perform next.
    pub fn command(&self) -> (c: FrameCommand)
        ensures
            c == self.next_command(),
    {
        match self.phase {
            Phase::Idle => FrameCommand::Wait,
            Phase::Translating(_) => FrameCommand::TranslateInput,
            Phase::ResizingSurface => FrameCommand::ResizeSurface {
                width: self.surface.width,
                height: self.surface.height,
            },
            Phase::ShuttingDown => FrameCommand::ShutdownPipeline,
            Phase::Frame(step) => match step {
                FrameStep::Clear => FrameCommand::ClearFrame,
                FrameStep::DrawPipeline => FrameCommand::DrawPipeline,
                FrameStep::BeginUi => FrameCommand::BeginUi { delta_nanos: self.frame_delta },
                FrameStep::BuildUi => FrameCommand::BuildUi,
                FrameStep::RenderUi => FrameCommand::RenderUi,
                FrameStep::Present => FrameCommand::Present,
            },
            Phase::RequestingRedraw => FrameCommand::RequestRedraw,
            Phase::RequestingFinalRedraw => FrameCommand::RequestRedraw,
            Phase::Stopped => FrameCommand::ExitLoop,
        }
    }

    /// Takes the next platform event, read at monotonic time `now`.
    pub fn on_event(&mut self, event: PlatformEvent, now: u64)
        requires
            old(self).wf(),
            old(self).phase is Idle || old(self).phase is Stopped,
        ensures
            final(self).wf(),
            *final(self) == handled(*old(self), event, now),
    {
        if let Phase::Stopped = self.phase {
            return;
        }
        match event {
            PlatformEvent::CloseRequested => {
                self.phase = Phase::Translating(AfterInput::Shutdown);
            },
            PlatformEvent::RedrawRequested => {
                self.frame_delta = self.clock.tick(now);
                self.phase = Phase::Translating(AfterInput::Frame);
            },
            PlatformEvent::Resized { width, height } => {
                let applied = self.surface.resize(width, height);
                self.phase = Phase::Translating(
                    if applied {
                        AfterInput::ResizeSurface
                    } else {
                        AfterInput::RequestRedraw
                    },
                );
            },
            PlatformEvent::Input => {
                self.phase = Phase::Translating(AfterInput::RequestRedraw);
            },
        }
    }

    /// Records the outcome of the command that `command` returned.
    pub fn report(&mut self, outcome: Result<(), String>)
        requires
            old(self).wf(),
            !(old(self).phase is Idle),
            !(old(self).phase is Stopped),
        ensures
            final(self).wf(),
            *final(self) == reported(*old(self), outcome),
    {
        match self.phase {
            Phase::Translating(after) => {
                self.phase = match after {
                    AfterInput::Shutdown => Phase::ShuttingDown,
                    AfterInput::Frame => Phase::Frame(FrameStep::Clear),
                    AfterInput::ResizeSurface => Phase::ResizingSurface,
                    AfterInput::RequestRedraw => Phase::RequestingRedraw,
                };
            },
            Phase::ResizingSurface => {
                self.phase = Phase::RequestingRedraw;
            },
            Phase::ShuttingDown => {
                self.phase = Phase::RequestingFinalRedraw;
            },
            Phase::Frame(step) => match step {
                FrameStep::Clear => {
                    self.phase = Phase::Frame(FrameStep::DrawPipeline);
                },
                FrameStep::DrawPipeline => match outcome {
                    Ok(_) => {
                        self.phase = Phase::Frame(FrameStep::BeginUi);
                    },
                    Err(detail) => self.stop(VeilError::DrawFailure { detail }),
                },
                FrameStep::BeginUi => {
                    self.phase = Phase::Frame(FrameStep::BuildUi);
                },
                FrameStep::BuildUi => match outcome {
                    Ok(_) => {
                        self.phase = Phase::Frame(FrameStep::RenderUi);
                    },
                    Err(reason) => self.stop(VeilError::ApplicationAbortRequested { reason }),
                },
                FrameStep::RenderUi => match outcome {
                    Ok(_) => {
                        self.phase = Phase::Frame(FrameStep::Present);
                    },
                    Err(detail) => self.stop(VeilError::DrawFailure { detail }),
                },
                FrameStep::Present => match outcome {
                    Ok(_) => {
                        self.phase = Phase::RequestingRedraw;
                    },
                    Err(detail) => self.stop(VeilError::PresentFailure { detail }),
                },
            },
            Phase::RequestingRedraw => {
                self.phase = Phase::Idle;
            },
            Phase::RequestingFinalRedraw => {
                self.phase = Phase::Stopped;
            },
            _ => {},
        }
    }

    fn stop(&mut self, e: VeilError)
        ensures
            *final(self) == stopped_with(*old(self), e),
    {
        self.fatal.record(e);
        self.phase = Phase::Stopped;
    }

    /// Hands the run's terminal error, if any, to the entry point once the
    /// loop has returned.
    pub fn take_fatal(&mut self) -> (r: Option<VeilError>)
        requires
            old(self).wf(),
        ensures
            final(self).wf(),
            r == old(self).fatal.error,
            *final(self) == (FrameScheduler { fatal: FatalSlot { error: None }, ..*old(self) }),
    {
        self.fatal.drain()
    }
}

pub open spec fn done() -> Result<(), String> {
    Ok(())
}

/// A frame whose steps all succeed issues clear, pipeline draw, UI begin with
/// the measured delta time, UI build, UI render and present, in that order,
/// then asks for another redraw and waits for the next event.
pub proof fn lemma_frame_order(s: FrameScheduler)
    requires
        s.wf(),
        s.phase == Phase::Frame(FrameStep::Clear),
    ensures
        ({
            let s1 = reported(s, done());
            let s2 = reported(s1, done());
            let s3 = reported(s2, done());
            let s4 = reported(s3, done());
            let s5 = reported(s4, done());
            let s6 = reported(s5, done());
            let s7 = reported(s6, done());
            &&& s.next_command() == FrameCommand::ClearFrame
            &&& s1.next_command() == FrameCommand::DrawPipeline
            &&& s2.next_command() == (FrameCommand::BeginUi { delta_nanos: s.frame_delta })
            &&& s3.next_command() == FrameCommand::BuildUi
            &&& s4.next_command() == FrameCommand::RenderUi
            &&& s5.next_command() == FrameCommand::Present
            &&& s6.next_command() == FrameCommand::RequestRedraw
            &&& s7.next_command() == FrameCommand::Wait
            &&& s7.surface == s.surface
            &&& s7.clock == s.clock
            &&& s7.fatal == s.fatal
        }),
{
}

/// An abort requested while the UI is built cuts the frame short: the loop is
/// told to stop with the abort as the run's terminal error, and no later event
/// makes the scheduler render or present.
pub proof fn lemma_abort_stops_the_loop(s: FrameScheduler, reason: String, event: PlatformEvent, now: u64)
    requires
        s.wf(),
        s.phase == Phase::Frame(FrameStep::BuildUi),
    ensures
        ({
            let t = reported(s, Err(reason));
            &&& t.wf()
            &&& t.next_command() == FrameCommand::ExitLoop
            &&& t.fatal.error == Some(VeilError::ApplicationAbortRequested { reason })
            &&& handled(t, event, now) == t
        }),
{
}

/// Any failing step stops the loop at once, with exactly its own error as the
/// run's terminal error.
pub proof fn lemma_failure_stops_with_its_error(s: FrameScheduler, detail: String)
    requires
        s.wf(),
        !(s.phase is Idle),
        !(s.phase is Stopped),
        reported(s, Err(detail)).phase is Stopped,
        !(s.phase is RequestingFinalRedraw),
    ensures
        ({
            let t = reported(s, Err(detail));
            &&& t.next_command() == FrameCommand::ExitLoop
            &&& t.fatal.error == Some(
                match s.phase {
                    Phase::Frame(FrameStep::BuildUi) => VeilError::ApplicationAbortRequested {
                        reason: detail,
                    },
                    Phase::Frame(FrameStep::Present) => VeilError::PresentFailure { detail },
                    _ => VeilError::DrawFailure { detail },
                },
            )
        }),
{
}

/// A close runs its input through the translator, shuts the pipeline down,
/// asks for a redraw like every other event, and then stops the loop with no
/// error recorded.
pub proof fn lemma_close_requests_redraw_then_stops(s: FrameScheduler, now: u64)
    requires
        s.wf(),
        s.phase is Idle,
    ensures
        ({
            let c0 = handled(s, PlatformEvent::CloseRequested, now);
            let c1 = reported(c0, done());
            let c2 = reported(c1, done());
            let c3 = reported(c2, done());
            &&& c0.next_command() == FrameCommand::TranslateInput
            &&& c1.next_command() == FrameCommand::ShutdownPipeline
            &&& c2.next_command() == FrameCommand::RequestRedraw
            &&& c3.next_command() == FrameCommand::ExitLoop
            &&& c3.fatal.error is None
        }),
{
}

/// The loop stops only when an operation reported a failure, or at the end of
/// a close: any other step that succeeds never stops it, whatever the surface
/// size.
pub proof fn lemma_success_never_stops(s: FrameScheduler)
    requires
        s.wf(),
        !(s.phase is Idle),
        !(s.phase is Stopped),
        !(s.phase is ShuttingDown),
        !(s.phase is RequestingFinalRedraw),
    ensures
        !(reported(s, done()).phase is Stopped),
        reported(s, done()).fatal == s.fatal,
{
}

/// A resize to any size with both dimensions positive reaches the GPU as that
/// size with the viewport `(0, 0, width, height)`, and the redraw that follows
/// runs to its present step when its operations succeed.
pub proof fn lemma_resize_then_present(s: FrameScheduler, width: u32, height: u32, now: u64)
    requires
        s.wf(),
        s.phase is Idle,
        width > 0,
        height > 0,
    ensures
        ({
            let r0 = handled(s, PlatformEvent::Resized { width, height }, now);
            let r1 = reported(r0, done());
            let r2 = reported(r1, done());
            let r3 = reported(r2, done());
            let f0 = handled(r3, PlatformEvent::RedrawRequested, now);
            let f1 = reported(f0, done());
            let f2 = reported(f1, done());
            let f3 = reported(f2, done());
            let f4 = reported(f3, done());
            let f5 = reported(f4, done());
            let f6 = reported(f5, done());
            &&& r1.next_command() == (FrameCommand::ResizeSurface { width, height })
            &&& r1.surface.viewport == (Viewport { x: 0, y: 0, width, height })
            &&& r3.phase is Idle
            &&& f6.next_command() == FrameCommand::Present
            &&& f6.surface.viewport == (Viewport { x: 0, y: 0, width, height })
        }),
{
}

/// A resize with a zero dimension changes neither the surface nor the
/// viewport and issues no GPU resize: the event only asks for a redraw.
pub proof fn lemma_degenerate_resize_changes_nothing(s: FrameScheduler, width: u32, height: u32, now: u64)
    requires
        s.wf(),
        s.phase is Idle,
        width == 0 || height == 0,
    ensures
        ({
            let r0 = handled(s, PlatformEvent::Resized { width, height }, now);
            let r1 = reported(r0, done());
            &&& r0.surface == s.surface
            &&& r1.next_command() == FrameCommand::RequestRedraw
            &&& reported(r1, done()) == s
        }),
{
}

/// The first frame measures a delta time of zero; a later one measures the
/// time elapsed since the previous frame started, whatever ran in between.
pub proof fn lemma_frame_delta(s: FrameScheduler, t: FrameScheduler, first: u64, second: u64)
    requires
        s.wf(),
        s.phase is Idle,
        s.clock.last_frame is None,
        t.wf(),
        t.phase is Idle,
        t.clock == handled(s, PlatformEvent::RedrawRequested, first).clock,
        first <= second,
    ensures
        handled(s, PlatformEvent::RedrawRequested, first).frame_delta == 0,
        handled(t, PlatformEvent::RedrawRequested, second).frame_delta == second - first,
{
}

} // verus!
