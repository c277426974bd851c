//! The readiness prober: decides, from clock readings and connection
//! attempts, when the service is reachable or the wait is over.
//!
//! The prober performs nothing itself. The host runs the loop: it hands the
//! prober an event, carries out the action that comes back, and reports the
//! result as the next event. A session starts with a clock reading; after a
//! `Sleep` the host reads the clock again. Elapsed time is counted in whole
//! milliseconds from the start of the probe.

use vstd::prelude::*;
use vstd::string::*;
use crate::error::SupervisorError;
use crate::text::{decimal, decimal_digits};

verus! {

/// The pause between two connection attempts, in milliseconds.
pub const POLL_INTERVAL_MS: u64 = 300;

/// How long the prober waits for the service, in milliseconds.
pub const READY_DEADLINE_MS: u64 = 20_000;

/// Why the prober gave up.
#[derive(Clone, Copy, Debug, PartialEq, Eq, Structural)]
pub enum FailureReason {
    /// The deadline passed before a connection was accepted.
    Timeout,
}

/// What is known about the service. `Ready` and `Failed` are final.
#[derive(Clone, Copy, Debug, PartialEq, Eq, Structural)]
pub enum ReadinessState {
    Starting,
    Ready,
    Failed(FailureReason),
}

/// Why a connection attempt did not succeed. The prober retries after each
/// of them; only the deadline ends the wait.
#[derive(Clone, Copy, Debug, PartialEq, Eq, Structural)]
pub enum ConnectError {
    Refused,
    Reset,
    Other,
}

/// What the host observed.
#[derive(Clone, Copy, Debug, PartialEq, Eq, Structural)]
pub enum ProbeEvent {
    /// The clock was read: `elapsed_ms` milliseconds have passed since the
    /// probe started.
    Tick { elapsed_ms: u64 },
    /// The connection attempt succeeded.
    Connected,
    /// The connection attempt failed.
    ConnectFailed(ConnectError),
}

/// What the host is to do next.
#[derive(Clone, Copy, Debug, PartialEq, Eq, Structural)]
pub enum ProbeAction {
    /// Try to connect to the service on `port` and report the result.
    Connect { port: u16 },
    /// Sleep for `millis` milliseconds, then read the clock and report it.
    Sleep { millis: u64 },
    /// The service is reachable: deliver the ready signal. The probe is over.
    SignalReady,
    /// The deadline passed: report the timeout. The probe is over.
    ReportTimeout,
    /// Nothing to do: the probe is over, or the event was not the one the
    /// prober was waiting for.
    Idle,
}

/// Where the prober stands in its cycle.
#[derive(Clone, Copy, Debug, PartialEq, Eq, Structural)]
pub enum ProbePhase {
    /// Waiting for a clock reading before the next attempt.
    AwaitingTick,
    /// Waiting for the result of a connection attempt.
    AwaitingConnect,
    /// The service accepted a connection.
    Ready,
    /// The prober gave up.
    Failed(FailureReason),
}

/// The prober as a mathematical value.
pub struct ProberView {
    pub port: u16,
    pub interval_ms: u64,
    pub deadline_ms: u64,
    pub phase: ProbePhase,
}

/// The readiness state that a phase stands for.
pub open spec fn readiness_of(phase: ProbePhase) -> ReadinessState {
    match phase {
        ProbePhase::AwaitingTick => ReadinessState::Starting,
        ProbePhase::AwaitingConnect => ReadinessState::Starting,
        ProbePhase::Ready => ReadinessState::Ready,
        ProbePhase::Failed(reason) => ReadinessState::Failed(reason),
    }
}

/// A prober that has not seen any event yet.
pub open spec fn initial_prober(port: u16, interval_ms: u64, deadline_ms: u64) -> ProberView {
    ProberView { port, interval_ms, deadline_ms, phase: ProbePhase::AwaitingTick }
}

/// The transition function: the prober after `event`, and the action it asks
/// for.
///
/// * A clock reading that the prober waits for ends the probe when it lies
///   strictly after the deadline, and otherwise starts a connection attempt.
/// * A successful attempt makes the service ready; a failed one, whatever the
///   error, is followed by a sleep of one interval.
/// * Every other pair of phase and event changes nothing.
pub open spec fn step_model(v: ProberView, event: ProbeEvent) -> (ProberView, ProbeAction) {
    match (v.phase, event) {
        (ProbePhase::AwaitingTick, ProbeEvent::Tick { elapsed_ms }) => {
            if elapsed_ms > v.deadline_ms {
                (
                    ProberView { phase: ProbePhase::Failed(FailureReason::Timeout), ..v },
                    ProbeAction::ReportTimeout,
                )
            } else {
                (
                    ProberView { phase: ProbePhase::AwaitingConnect, ..v },
                    ProbeAction::Connect { port: v.port },
                )
            }
        },
        (ProbePhase::AwaitingConnect, ProbeEvent::Connected) => (
            ProberView { phase: ProbePhase::Ready, ..v },
            ProbeAction::SignalReady,
        ),
        (ProbePhase::AwaitingConnect, ProbeEvent::ConnectFailed(_)) => (
            ProberView { phase: ProbePhase::AwaitingTick, ..v },
            ProbeAction::Sleep { millis: v.interval_ms },
        ),
        _ => (v, ProbeAction::Idle),
    }
}

/// The address that a connection attempt goes to: the loopback interface and
/// the service port.
pub open spec fn probe_address_text(port: u16) -> Seq<char> {
    "127.0.0.1:"@ + decimal_digits(port as nat)
}

/// The address that a connection attempt goes to.
pub fn probe_address(port: u16) -> (address: String)
    ensures
        address@ == probe_address_text(port),
{
    let mut address = String::from_str("127.0.0.1:");
    let numeral = decimal(port as u64);
    address.append(numeral.as_str());
    address
}

/// The readiness prober of one session.
#[derive(Debug)]
pub struct Prober {
    port: u16,
    interval_ms: u64,
    deadline_ms: u64,
    phase: ProbePhase,
}

impl View for Prober {
    type V = ProberView;

    closed spec fn view(&self) -> ProberView {
        ProberView {
            port: self.port,
            interval_ms: self.interval_ms,
            deadline_ms: self.deadline_ms,
            phase: self.phase,
        }
    }
}

impl Prober {
    /// A prober for the service on `port` that polls every `interval_ms`
    /// milliseconds and gives up once more than `deadline_ms` milliseconds
    /// have passed.
    pub fn new(port: u16, interval_ms: u64, deadline_ms: u64) -> (prober: Self)
        ensures
            prober@ == initial_prober(port, interval_ms, deadline_ms),
    {
        Prober { port, interval_ms, deadline_ms, phase: ProbePhase::AwaitingTick }
    }

    /// A prober with the standard interval and deadline.
    pub fn standard(port: u16) -> (prober: Self)
        ensures
            prober@ == initial_prober(port, POLL_INTERVAL_MS, READY_DEADLINE_MS),
    {
        Prober::new(port, POLL_INTERVAL_MS, READY_DEADLINE_MS)
    }

    /// The service port.
    pub fn port(&self) -> (port: u16)
        ensures
            port == self@.port,
    {
        self.port
    }

    /// The pause between two attempts, in milliseconds.
    pub fn interval_ms(&self) -> (interval_ms: u64)
        ensures
            interval_ms == self@.interval_ms,
    {
        self.interval_ms
    }

    /// The deadline, in milliseconds from the start of the probe.
    pub fn deadline_ms(&self) -> (deadline_ms: u64)
        ensures
            deadline_ms == self@.deadline_ms,
    {
        self.deadline_ms
    }

    /// Where the prober stands in its cycle.
    pub fn phase(&self) -> (phase: ProbePhase)
        ensures
            phase == self@.phase,
    {
        self.phase
    }

    /// What is known about the service.
    pub fn state(&self) -> (state: ReadinessState)
        ensures
            state == readiness_of(self@.phase),
    {
        match self.phase {
            ProbePhase::AwaitingTick => ReadinessState::Starting,
            ProbePhase::AwaitingConnect => ReadinessState::Starting,
            ProbePhase::Ready => ReadinessState::Ready,
            ProbePhase::Failed(reason) => ReadinessState::Failed(reason),
        }
    }

    /// Whether the probe is over.
    pub fn is_finished(&self) -> (finished: bool)
        ensures
            finished == (readiness_of(self@.phase) != ReadinessState::Starting),
    {
        match self.phase {
            ProbePhase::AwaitingTick => false,
            ProbePhase::AwaitingConnect => false,
            ProbePhase::Ready => true,
            ProbePhase::Failed(_) => true,
        }
    }

    /// The error to report when the prober gave up, and `None` otherwise.
    pub fn failure(&self) -> (error: Option<SupervisorError>)
        ensures
            error == match self@.phase {
                ProbePhase::Failed(FailureReason::Timeout) => Some(
                    SupervisorError::ProbeTimeout { deadline_ms: self@.deadline_ms },
                ),
                _ => None,
            },
    {
        match self.phase {
            ProbePhase::Failed(FailureReason::Timeout) => Some(
                SupervisorError::ProbeTimeout { deadline_ms: self.deadline_ms },
            ),
            _ => None,
        }
    }

    /// Takes one event and returns the action to carry out next.
    pub fn step(&mut self, event: ProbeEvent) -> (action: ProbeAction)
        ensures
            (final(self)@, action) == step_model(old(self)@, event),
    {
        match (self.phase, event) {
            (ProbePhase::AwaitingTick, ProbeEvent::Tick { elapsed_ms }) => {
                if elapsed_ms > self.deadline_ms {
                    self.phase = ProbePhase::Failed(FailureReason::Timeout);
                    ProbeAction::ReportTimeout
                } else {
                    self.phase = ProbePhase::AwaitingConnect;
                    ProbeAction::Connect { port: self.port }
                }
            },
            (ProbePhase::AwaitingConnect, ProbeEvent::Connected) => {
                self.phase = ProbePhase::Ready;
                ProbeAction::SignalReady
            },
            (ProbePhase::AwaitingConnect, ProbeEvent::ConnectFailed(_)) => {
                self.phase = ProbePhase::AwaitingTick;
                ProbeAction::Sleep { millis: self.interval_ms }
            },
            _ => ProbeAction::Idle,
        }
    }
}

/// The prober after a sequence of events, taken first to last.
pub open spec fn run_model(v: ProberView, events: Seq<ProbeEvent>) -> ProberView
    decreases events.len(),
{
    if events.len() == 0 {
        v
    } else {
        run_model(step_model(v, events[0]).0, events.drop_first())
    }
}

/// How often the action `wanted` is asked for while the prober takes
/// `events`, first to last.
pub open spec fn count_action(v: ProberView, events: Seq<ProbeEvent>, wanted: ProbeAction) -> nat
    decreases events.len(),
{
    if events.len() == 0 {
        0
    } else {
        let (next, action) = step_model(v, events[0]);
        let here: nat = if action == wanted {
            1
        } else {
            0
        };
        here + count_action(next, events.drop_first(), wanted)
    }
}

/// Readiness is monotonic: whatever events follow, the port, the interval and
/// the deadline stay as they are, and a prober that is ready or has failed
/// stays exactly so.
pub proof fn lemma_final_states_are_final(v: ProberView, events: Seq<ProbeEvent>)
    ensures
        run_model(v, events).port == v.port,
        run_model(v, events).interval_ms == v.interval_ms,
        run_model(v, events).deadline_ms == v.deadline_ms,
        readiness_of(v.phase) != ReadinessState::Starting ==> run_model(v, events) == v,
    decreases events.len(),
{
    if events.len() > 0 {
        lemma_final_states_are_final(step_model(v, events[0]).0, events.drop_first());
    }
}

/// The ready signal fires at most once in a session, and so does the timeout
/// report; the two never both fire. Whichever fires decides the final state,
/// and a prober that is already ready or failed fires neither again.
pub proof fn lemma_signals_fire_at_most_once(v: ProberView, events: Seq<ProbeEvent>)
    ensures
        count_action(v, events, ProbeAction::SignalReady) + count_action(
            v,
            events,
            ProbeAction::ReportTimeout,
        ) <= 1,
        readiness_of(v.phase) != ReadinessState::Starting ==> count_action(
            v,
            events,
            ProbeAction::SignalReady,
        ) + count_action(v, events, ProbeAction::ReportTimeout) == 0,
        count_action(v, events, ProbeAction::SignalReady) == 1 ==> run_model(v, events).phase
            == ProbePhase::Ready,
        count_action(v, events, ProbeAction::ReportTimeout) == 1 ==> run_model(v, events).phase
            == ProbePhase::Failed(FailureReason::Timeout),
        readiness_of(v.phase) == ReadinessState::Starting ==> (run_model(v, events).phase
            == ProbePhase::Ready <==> count_action(v, events, ProbeAction::SignalReady) == 1),
    decreases events.len(),
{
    if events.len() > 0 {
        let next = step_model(v, events[0]).0;
        lemma_signals_fire_at_most_once(next, events.drop_first());
        lemma_final_states_are_final(next, events.drop_first());
    }
}

} // verus!
