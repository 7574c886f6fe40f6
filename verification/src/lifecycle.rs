//! Session lifecycle: the runtime-reported states and the rule that decides,
//! for each drained event, whether the loop begins the session, stops
//! producing frames, fails loudly, or ignores the notification.

use vstd::prelude::*;

verus! {

/// The runtime-reported session lifecycle states.
#[derive(Clone, Copy, Debug, PartialEq, Eq, Structural)]
pub enum SessionState {
    Idle,
    Ready,
    Synchronized,
    Visible,
    Focused,
    Stopping,
    LossPending,
    Exiting,
}

/// One lifecycle notification drained from the runtime's event queue.
#[derive(Clone, Copy, Debug, PartialEq, Eq, Structural)]
pub enum LifecycleEvent {
    /// The session moved to a new lifecycle state.
    StateChanged(SessionState),
    /// The runtime dropped queued events; no recovery policy exists here.
    EventsLost,
    /// The runtime instance is about to be lost; no recovery policy exists here.
    InstanceLossPending,
    /// Any event kind the loop does not care about.
    Unrecognized,
}

/// What the loop must do in response to one lifecycle event.
#[derive(Clone, Copy, Debug, PartialEq, Eq, Structural)]
pub enum LifecycleDecision {
    /// The session is ready: ask the runtime to begin it.
    BeginSession,
    /// Stop producing frames; keep draining events.
    StopRunning,
    /// An event with no recovery policy: the loop must fail loudly.
    Unsupported,
    /// Nothing to do.
    NoAction,
}

/// States on whose arrival the loop stops producing frames.
pub open spec fn stops_running(s: SessionState) -> bool {
    s is Stopping || s is LossPending || s is Idle || s is Exiting
}

/// The decision owed for each event: begin on READY, stop on
/// STOPPING / LOSS_PENDING / IDLE / EXITING, fail loudly on the two
/// unhandled kinds, ignore everything else.
pub open spec fn decision_for(e: LifecycleEvent) -> LifecycleDecision {
    match e {
        LifecycleEvent::StateChanged(s) => {
            if s is Ready {
                LifecycleDecision::BeginSession
            } else if stops_running(s) {
                LifecycleDecision::StopRunning
            } else {
                LifecycleDecision::NoAction
            }
        },
        LifecycleEvent::EventsLost => LifecycleDecision::Unsupported,
        LifecycleEvent::InstanceLossPending => LifecycleDecision::Unsupported,
        LifecycleEvent::Unrecognized => LifecycleDecision::NoAction,
    }
}

/// Classify one drained lifecycle event.
pub fn classify_event(e: LifecycleEvent) -> (d: LifecycleDecision)
    ensures
        d == decision_for(e),
{
    match e {
        LifecycleEvent::StateChanged(s) => {
            match s {
                SessionState::Ready => LifecycleDecision::BeginSession,
                SessionState::Stopping
                | SessionState::LossPending
                | SessionState::Idle
                | SessionState::Exiting => LifecycleDecision::StopRunning,
                _ => LifecycleDecision::NoAction,
            }
        },
        LifecycleEvent::EventsLost | LifecycleEvent::InstanceLossPending => {
            LifecycleDecision::Unsupported
        },
        LifecycleEvent::Unrecognized => LifecycleDecision::NoAction,
    }
}

} // verus!
