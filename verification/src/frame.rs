//! The driver of the render loop.
//!
//! The host calls back once for each frame that was requested, and a frame
//! must be requested anew from inside each callback for the loop to go on.
//! Here that is a state machine: the caller reports what happened, and the
//! machine answers what to do next. The loop ends when a callback declines to
//! go on; there is no other stop signal.

use vstd::prelude::*;

verus! {

/// What a frame callback decides when it returns.
#[derive(Clone, Copy, Debug, PartialEq, Eq, Structural)]
pub enum FrameControl {
    /// Request the next frame.
    Continue,
    /// Let the loop end.
    Stop,
}

/// Where the loop stands.
#[derive(Clone, Copy, Debug, PartialEq, Eq, Structural)]
pub enum LoopPhase {
    /// No frame is requested and no callback runs.
    Idle,
    /// One frame is requested from the host and has not fired yet.
    Waiting,
    /// The callback of a frame runs.
    Running,
}

/// What the caller reports to the driver.
#[derive(Clone, Copy, Debug, PartialEq, Eq, Structural)]
pub enum LoopEvent {
    /// The application asks for the loop to run.
    Start,
    /// The host fired a frame.
    FrameFired,
    /// The callback of the current frame returned with this decision.
    CallbackReturned(FrameControl),
}

/// What the driver tells the caller to do.
#[derive(Clone, Copy, Debug, PartialEq, Eq, Structural)]
pub enum LoopAction {
    /// Request exactly one frame from the host.
    RequestFrame,
    /// Invoke the frame callback now.
    InvokeCallback,
    /// Do nothing.
    Nothing,
}

/// The phase after `event` in `phase`. An event that does not fit the phase
/// leaves it as it is.
pub open spec fn next_phase(phase: LoopPhase, event: LoopEvent) -> LoopPhase {
    match (phase, event) {
        (LoopPhase::Idle, LoopEvent::Start) => LoopPhase::Waiting,
        (LoopPhase::Waiting, LoopEvent::FrameFired) => LoopPhase::Running,
        (LoopPhase::Running, LoopEvent::CallbackReturned(FrameControl::Continue)) => {
            LoopPhase::Waiting
        },
        (LoopPhase::Running, LoopEvent::CallbackReturned(FrameControl::Stop)) => LoopPhase::Idle,
        _ => phase,
    }
}

/// What to do on `event` in `phase`: request a frame when the loop starts or
/// a callback wants to go on, invoke the callback when the requested frame
/// fires, and nothing otherwise.
pub open spec fn action_for(phase: LoopPhase, event: LoopEvent) -> LoopAction {
    match (phase, event) {
        (LoopPhase::Idle, LoopEvent::Start) => LoopAction::RequestFrame,
        (LoopPhase::Waiting, LoopEvent::FrameFired) => LoopAction::InvokeCallback,
        (LoopPhase::Running, LoopEvent::CallbackReturned(FrameControl::Continue)) => {
            LoopAction::RequestFrame
        },
        _ => LoopAction::Nothing,
    }
}

/// The phase after each of `events` in turn.
pub open spec fn phase_after(phase: LoopPhase, events: Seq<LoopEvent>) -> LoopPhase
    decreases events.len(),
{
    if events.len() == 0 {
        phase
    } else {
        next_phase(phase_after(phase, events.drop_last()), events.last())
    }
}

/// The actions that the driver answers to each of `events` in turn.
pub open spec fn actions_for(phase: LoopPhase, events: Seq<LoopEvent>) -> Seq<LoopAction>
    decreases events.len(),
{
    if events.len() == 0 {
        Seq::empty()
    } else {
        actions_for(phase, events.drop_last()).push(
            action_for(phase_after(phase, events.drop_last()), events.last()),
        )
    }
}

/// How often `action` occurs in `actions`.
pub open spec fn count(actions: Seq<LoopAction>, action: LoopAction) -> nat
    decreases actions.len(),
{
    if actions.len() == 0 {
        0
    } else {
        count(actions.drop_last(), action) + if actions.last() == action {
            1nat
        } else {
            0nat
        }
    }
}

/// One frame per request, one callback at a time: whatever the caller
/// reports to a driver that starts idle, the frames requested so far are the
/// callbacks invoked so far, and one more exactly while a frame is awaited.
pub proof fn lemma_one_frame_per_request(events: Seq<LoopEvent>)
    ensures
        count(actions_for(LoopPhase::Idle, events), LoopAction::RequestFrame) == count(
            actions_for(LoopPhase::Idle, events),
            LoopAction::InvokeCallback,
        ) + if phase_after(LoopPhase::Idle, events) == LoopPhase::Waiting {
            1nat
        } else {
            0nat
        },
    decreases events.len(),
{
    if events.len() > 0 {
        lemma_one_frame_per_request(events.drop_last());
        let actions = actions_for(LoopPhase::Idle, events);
        assert(actions.drop_last() =~= actions_for(LoopPhase::Idle, events.drop_last()));
    }
}

/// Callbacks never overlap: the driver has a callback invoked only when the
/// awaited frame fires, the callback then runs, and while it runs the driver
/// has no other one invoked.
pub proof fn lemma_callbacks_never_overlap(phase: LoopPhase, event: LoopEvent)
    ensures
        action_for(phase, event) == LoopAction::InvokeCallback <==> phase == LoopPhase::Waiting
            && event == LoopEvent::FrameFired,
        action_for(phase, event) == LoopAction::InvokeCallback ==> next_phase(phase, event)
            == LoopPhase::Running,
        action_for(LoopPhase::Running, event) != LoopAction::InvokeCallback,
{
}

/// The loop ends exactly when a callback declines: a running loop is idle
/// after an event if and only if the event is a callback that returned
/// `Stop`, and then no frame is requested.
pub proof fn lemma_loop_ends_on_stop(event: LoopEvent)
    ensures
        next_phase(LoopPhase::Running, event) == LoopPhase::Idle <==> event
            == LoopEvent::CallbackReturned(FrameControl::Stop),
        event == LoopEvent::CallbackReturned(FrameControl::Stop) ==> action_for(
            LoopPhase::Running,
            event,
        ) == LoopAction::Nothing,
{
}

/// The driver of one render loop.
#[derive(Debug)]
pub struct RenderLoop {
    phase: LoopPhase,
}

impl View for RenderLoop {
    type V = LoopPhase;

    closed spec fn view(&self) -> LoopPhase {
        self.phase
    }
}

impl RenderLoop {
    /// A driver that is idle.
    pub fn new() -> (driver: RenderLoop)
        ensures
            driver@ == LoopPhase::Idle,
    {
        RenderLoop { phase: LoopPhase::Idle }
    }

    /// Where the loop stands.
    pub fn phase(&self) -> (phase: LoopPhase)
        ensures
            phase == self@,
    {
        self.phase
    }

    /// Takes what the caller reports and answers what to do.
    pub fn step(&mut self, event: LoopEvent) -> (action: LoopAction)
        ensures
            final(self)@ == next_phase(old(self)@, event),
            action == action_for(old(self)@, event),
    {
        let action = match (self.phase, event) {
            (LoopPhase::Idle, LoopEvent::Start) => {
                self.phase = LoopPhase::Waiting;
                LoopAction::RequestFrame
            },
            (LoopPhase::Waiting, LoopEvent::FrameFired) => {
                self.phase = LoopPhase::Running;
                LoopAction::InvokeCallback
            },
            (LoopPhase::Running, LoopEvent::CallbackReturned(control)) => {
                match control {
                    FrameControl::Continue => {
                        self.phase = LoopPhase::Waiting;
                        LoopAction::RequestFrame
                    },
                    FrameControl::Stop => {
                        self.phase = LoopPhase::Idle;
                        LoopAction::Nothing
                    },
                }
            },
            _ => LoopAction::Nothing,
        };
        action
    }

    /// Starts the loop: answers whether a frame is to be requested from the
    /// host. It is, unless a frame is already awaited or a callback runs.
    pub fn render_loop(&mut self) -> (request: bool)
        ensures
            final(self)@ == next_phase(old(self)@, LoopEvent::Start),
            request == (old(self)@ == LoopPhase::Idle),
    {
        match self.step(LoopEvent::Start) {
            LoopAction::RequestFrame => true,
            _ => false,
        }
    }
}

} // verus!
