//! The session as one state machine: launch, probe, and shutdown together.
//!
//! `Idle → Spawning → Probing → {Ready, Failed}`, and the window-close event
//! leads from every phase to `Terminated`, which is never left. A launch that
//! fails ends the session too.

use vstd::prelude::*;
use crate::prober::ProbeAction;

verus! {

/// Where the session stands.
#[derive(Clone, Copy, Debug, PartialEq, Eq, Structural)]
pub enum SessionPhase {
    /// Nothing has been started.
    Idle,
    /// The host is starting the service process.
    Spawning,
    /// The process runs and the prober waits for it to accept connections.
    Probing,
    /// The service is reachable.
    Ready,
    /// The service did not become reachable in time.
    Failed,
    /// The session is over.
    Terminated,
}

/// What happened in the session.
#[derive(Clone, Copy, Debug, PartialEq, Eq, Structural)]
pub enum SessionEvent {
    /// The host began to start the service process.
    LaunchStarted,
    /// The process was started and its handle stored.
    LaunchSucceeded,
    /// The process could not be started.
    LaunchFailed,
    /// The prober signalled that the service is ready.
    ProbeSucceeded,
    /// The prober reported a timeout.
    ProbeTimedOut,
    /// The window is closing.
    WindowClosing,
}

/// The phase after `event`. An event that has no meaning in a phase leaves
/// the phase as it is.
pub open spec fn next_phase(phase: SessionPhase, event: SessionEvent) -> SessionPhase {
    match (phase, event) {
        (_, SessionEvent::WindowClosing) => SessionPhase::Terminated,
        (SessionPhase::Idle, SessionEvent::LaunchStarted) => SessionPhase::Spawning,
        (SessionPhase::Spawning, SessionEvent::LaunchSucceeded) => SessionPhase::Probing,
        (SessionPhase::Spawning, SessionEvent::LaunchFailed) => SessionPhase::Terminated,
        (SessionPhase::Probing, SessionEvent::ProbeSucceeded) => SessionPhase::Ready,
        (SessionPhase::Probing, SessionEvent::ProbeTimedOut) => SessionPhase::Failed,
        _ => phase,
    }
}

/// The phase after a sequence of events, taken first to last.
pub open spec fn phase_after(phase: SessionPhase, events: Seq<SessionEvent>) -> SessionPhase
    decreases events.len(),
{
    if events.len() == 0 {
        phase
    } else {
        phase_after(next_phase(phase, events[0]), events.drop_first())
    }
}

/// How often the session enters `target` from another phase while it takes
/// `events`, first to last.
pub open spec fn entries_into(
    phase: SessionPhase,
    events: Seq<SessionEvent>,
    target: SessionPhase,
) -> nat
    decreases events.len(),
{
    if events.len() == 0 {
        0
    } else {
        let next = next_phase(phase, events[0]);
        let here: nat = if next == target && phase != target {
            1
        } else {
            0
        };
        here + entries_into(next, events.drop_first(), target)
    }
}

/// How far a phase is along the session: no event ever leads back to a phase
/// of lower progress.
pub open spec fn progress(phase: SessionPhase) -> nat {
    match phase {
        SessionPhase::Idle => 0,
        SessionPhase::Spawning => 1,
        SessionPhase::Probing => 2,
        SessionPhase::Ready => 3,
        SessionPhase::Failed => 3,
        SessionPhase::Terminated => 4,
    }
}

/// The session event that an action of the prober stands for, if any.
pub open spec fn probe_outcome(action: ProbeAction) -> Option<SessionEvent> {
    match action {
        ProbeAction::SignalReady => Some(SessionEvent::ProbeSucceeded),
        ProbeAction::ReportTimeout => Some(SessionEvent::ProbeTimedOut),
        _ => None,
    }
}

impl SessionPhase {
    /// The phase after `event`.
    pub fn after(self, event: SessionEvent) -> (next: SessionPhase)
        ensures
            next == next_phase(self, event),
    {
        match (self, event) {
            (_, SessionEvent::WindowClosing) => SessionPhase::Terminated,
            (SessionPhase::Idle, SessionEvent::LaunchStarted) => SessionPhase::Spawning,
            (SessionPhase::Spawning, SessionEvent::LaunchSucceeded) => SessionPhase::Probing,
            (SessionPhase::Spawning, SessionEvent::LaunchFailed) => SessionPhase::Terminated,
            (SessionPhase::Probing, SessionEvent::ProbeSucceeded) => SessionPhase::Ready,
            (SessionPhase::Probing, SessionEvent::ProbeTimedOut) => SessionPhase::Failed,
            (phase, _) => phase,
        }
    }

    /// Whether the session is over.
    pub fn is_terminated(self) -> (terminated: bool)
        ensures
            terminated == (self == SessionPhase::Terminated),
    {
        match self {
            SessionPhase::Terminated => true,
            _ => false,
        }
    }
}

/// The session event that an action of the prober stands for: the ready
/// signal and the timeout report end the probe, every other action is part
/// of it.
pub fn session_event_of(action: ProbeAction) -> (event: Option<SessionEvent>)
    ensures
        event == probe_outcome(action),
{
    match action {
        ProbeAction::SignalReady => Some(SessionEvent::ProbeSucceeded),
        ProbeAction::ReportTimeout => Some(SessionEvent::ProbeTimedOut),
        _ => None,
    }
}

/// The window-close event leads to `Terminated` from every phase, and
/// `Terminated` is never left.
pub proof fn lemma_terminated_is_absorbing(phase: SessionPhase, events: Seq<SessionEvent>)
    ensures
        next_phase(phase, SessionEvent::WindowClosing) == SessionPhase::Terminated,
        phase_after(SessionPhase::Terminated, events) == SessionPhase::Terminated,
    decreases events.len(),
{
    if events.len() > 0 {
        lemma_terminated_is_absorbing(phase, events.drop_first());
    }
}

/// The session never goes back: progress does not decrease, and a session
/// that is ready or failed only changes by terminating.
pub proof fn lemma_session_never_goes_back(phase: SessionPhase, events: Seq<SessionEvent>)
    ensures
        progress(phase) <= progress(phase_after(phase, events)),
        phase == SessionPhase::Ready || phase == SessionPhase::Failed ==> phase_after(
            phase,
            events,
        ) == phase || phase_after(phase, events) == SessionPhase::Terminated,
    decreases events.len(),
{
    if events.len() > 0 {
        lemma_session_never_goes_back(next_phase(phase, events[0]), events.drop_first());
        lemma_terminated_is_absorbing(phase, events.drop_first());
    }
}

/// `Ready` is entered at most once in a session, and never by a session
/// that is already past probing.
pub proof fn lemma_ready_entered_at_most_once(phase: SessionPhase, events: Seq<SessionEvent>)
    ensures
        entries_into(phase, events, SessionPhase::Ready) <= 1,
        progress(phase) >= 3 ==> entries_into(phase, events, SessionPhase::Ready) == 0,
    decreases events.len(),
{
    if events.len() > 0 {
        lemma_ready_entered_at_most_once(next_phase(phase, events[0]), events.drop_first());
    }
}

} // verus!
