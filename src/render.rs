//! The messages between a render worker and its owner, and the worker's
//! decisions: what to do with each request and each renderer step.

use vstd::prelude::*;
use std::time::Duration;

verus! {

/// Relies on `Duration`'s `Clone`: `Duration` is `Copy`, so a clone is the same value.
pub assume_specification[ <std::time::Duration as std::clone::Clone>::clone ](
    d: &std::time::Duration,
) -> (r: std::time::Duration)
    ensures
        r == *d,
;

/// What the owner asks of the worker; `O` carries the render's options.
#[derive(Clone, Debug)]
pub enum RenderThreadRequest<O> {
    StartRender(O),
    CancelRender,
    Terminate,
}

/// A snapshot of a running render.
#[derive(Clone, Debug)]
pub struct RenderProgressInfo {
    pub frame: u64,
    pub average_fps: u32,
    pub encoded_size: usize,
    pub expected_duration_frames: Option<usize>,
    pub expected_duration: Option<Duration>,
    pub eta_duration: Option<Duration>,
    pub elapsed_duration: Duration,
    pub encoded_duration: Duration,
    pub loop_count: u64,
}

/// What the worker tells its owner.
#[derive(Clone, Debug)]
pub enum RenderThreadMessage {
    Error(String),
    RenderStarting,
    RenderProgress(RenderProgressInfo),
    RenderComplete,
    RenderCancelled,
}

#[derive(Clone, Copy, PartialEq, Eq, Structural, Debug)]
pub enum RenderState {
    Idle,
    Rendering,
}

/// What happened since the worker's last decision.
#[derive(Clone, Copy, PartialEq, Eq, Structural, Debug)]
pub enum RenderEvent {
    StartRequested,
    CancelRequested,
    TerminateRequested,
    /// No request was waiting.
    NoRequest,
    /// The renderer was built and its encoding started, or not.
    Started(bool),
    /// A renderer step ended: with more to do, with the render done, or failed.
    Stepped(bool),
    StepFailed,
    /// The encoding was finished, or failed to.
    Finished(bool),
}

/// What the worker does next.
#[derive(Clone, Copy, PartialEq, Eq, Structural, Debug)]
pub enum RenderAction {
    /// Wait for the next request.
    Wait,
    /// Report that a render starts, and build the renderer.
    Start,
    /// Report that there is no active render to cancel.
    RejectCancel,
    /// Report that a render is already running, and go on with it.
    RejectStart,
    /// Report the cancellation and drop the renderer.
    Cancel,
    /// Leave the worker.
    Exit,
    /// Run one renderer step.
    Step,
    /// Finish the encoding.
    Finish,
    /// Report the completed render.
    Complete,
    /// Report the error that came back, and drop the renderer.
    Fail,
}

/// The worker's decisions, from its state and the latest event.
pub open spec fn transition_spec(state: RenderState, event: RenderEvent) -> (RenderState, RenderAction) {
    match event {
        RenderEvent::TerminateRequested => (RenderState::Idle, RenderAction::Exit),
        RenderEvent::StartRequested => match state {
            RenderState::Idle => (RenderState::Idle, RenderAction::Start),
            RenderState::Rendering => (RenderState::Rendering, RenderAction::RejectStart),
        },
        RenderEvent::CancelRequested => match state {
            RenderState::Idle => (RenderState::Idle, RenderAction::RejectCancel),
            RenderState::Rendering => (RenderState::Idle, RenderAction::Cancel),
        },
        RenderEvent::NoRequest => match state {
            RenderState::Idle => (RenderState::Idle, RenderAction::Wait),
            RenderState::Rendering => (RenderState::Rendering, RenderAction::Step),
        },
        RenderEvent::Started(ok) => if ok {
            (RenderState::Rendering, RenderAction::Step)
        } else {
            (RenderState::Idle, RenderAction::Fail)
        },
        RenderEvent::Stepped(more) => if more {
            (RenderState::Rendering, RenderAction::Step)
        } else {
            (RenderState::Rendering, RenderAction::Finish)
        },
        RenderEvent::StepFailed => (RenderState::Idle, RenderAction::Fail),
        RenderEvent::Finished(ok) => if ok {
            (RenderState::Idle, RenderAction::Complete)
        } else {
            (RenderState::Idle, RenderAction::Fail)
        },
    }
}

/// Decides the worker's next state and action.
pub fn render_transition(state: RenderState, event: RenderEvent) -> (r: (RenderState, RenderAction))
    ensures
        r == transition_spec(state, event),
{
    match event {
        RenderEvent::TerminateRequested => (RenderState::Idle, RenderAction::Exit),
        RenderEvent::StartRequested => match state {
            RenderState::Idle => (RenderState::Idle, RenderAction::Start),
            RenderState::Rendering => (RenderState::Rendering, RenderAction::RejectStart),
        },
        RenderEvent::CancelRequested => match state {
            RenderState::Idle => (RenderState::Idle, RenderAction::RejectCancel),
            RenderState::Rendering => (RenderState::Idle, RenderAction::Cancel),
        },
        RenderEvent::NoRequest => match state {
            RenderState::Idle => (RenderState::Idle, RenderAction::Wait),
            RenderState::Rendering => (RenderState::Rendering, RenderAction::Step),
        },
        RenderEvent::Started(ok) => if ok {
            (RenderState::Rendering, RenderAction::Step)
        } else {
            (RenderState::Idle, RenderAction::Fail)
        },
        RenderEvent::Stepped(more) => if more {
            (RenderState::Rendering, RenderAction::Step)
        } else {
            (RenderState::Rendering, RenderAction::Finish)
        },
        RenderEvent::StepFailed => (RenderState::Idle, RenderAction::Fail),
        RenderEvent::Finished(ok) => if ok {
            (RenderState::Idle, RenderAction::Complete)
        } else {
            (RenderState::Idle, RenderAction::Fail)
        },
    }
}

/// The event that a request stands for.
pub fn request_event<O>(request: &RenderThreadRequest<O>) -> (r: RenderEvent)
    ensures
        r == match request {
            RenderThreadRequest::StartRender(_) => RenderEvent::StartRequested,
            RenderThreadRequest::CancelRender => RenderEvent::CancelRequested,
            RenderThreadRequest::Terminate => RenderEvent::TerminateRequested,
        },
{
    match request {
        RenderThreadRequest::StartRender(_) => RenderEvent::StartRequested,
        RenderThreadRequest::CancelRender => RenderEvent::CancelRequested,
        RenderThreadRequest::Terminate => RenderEvent::TerminateRequested,
    }
}

/// Whether a progress report is due: half a second or more since the last, in milliseconds.
pub fn progress_due(elapsed_ms: u64) -> (r: bool)
    ensures
        r == (elapsed_ms >= 500),
{
    elapsed_ms >= 500
}

} // verus!
