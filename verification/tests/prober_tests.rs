use sidecar_supervisor::error::SupervisorError;
use sidecar_supervisor::prober::{
    probe_address, ConnectError, FailureReason, ProbeAction, ProbeEvent, ProbePhase, Prober,
    ReadinessState, POLL_INTERVAL_MS, READY_DEADLINE_MS,
};

/// Runs a prober on a simulated clock: attempts and clock readings take no
/// time, sleeps last exactly as long as asked, and the service accepts
/// connections from `accepting_from` on. Returns the final state, the time
/// at which the probe ended, and the number of connection attempts.
fn run_on_simulated_clock(
    mut prober: Prober,
    accepting_from: Option<u64>,
) -> (ReadinessState, u64, u32) {
    let mut now: u64 = 0;
    let mut attempts: u32 = 0;
    let mut event = ProbeEvent::Tick { elapsed_ms: now };
    loop {
        match prober.step(event) {
            ProbeAction::Connect { port } => {
                assert_eq!(port, prober.port());
                attempts += 1;
                let accepted = match accepting_from {
                    Some(from) => from <= now,
                    None => false,
                };
                event = if accepted {
                    ProbeEvent::Connected
                } else {
                    ProbeEvent::ConnectFailed(ConnectError::Refused)
                };
            }
            ProbeAction::Sleep { millis } => {
                now += millis;
                event = ProbeEvent::Tick { elapsed_ms: now };
            }
            ProbeAction::SignalReady | ProbeAction::ReportTimeout => {
                return (prober.state(), now, attempts);
            }
            ProbeAction::Idle => panic!("the prober went idle in the middle of a probe"),
        }
    }
}

#[test]
fn standard_interval_and_deadline() {
    assert_eq!(POLL_INTERVAL_MS, 300);
    assert_eq!(READY_DEADLINE_MS, 20_000);
    let prober = Prober::standard(3947);
    assert_eq!(prober.port(), 3947);
    assert_eq!(prober.interval_ms(), 300);
    assert_eq!(prober.deadline_ms(), 20_000);
    assert_eq!(prober.phase(), ProbePhase::AwaitingTick);
    assert_eq!(prober.state(), ReadinessState::Starting);
    assert!(!prober.is_finished());
    assert_eq!(prober.failure(), None);
}

#[test]
fn service_accepting_at_two_seconds_is_ready_within_one_interval() {
    let (state, at, attempts) = run_on_simulated_clock(Prober::new(3947, 300, 20_000), Some(2_000));
    assert_eq!(state, ReadinessState::Ready);
    assert!(2_000 <= at && at <= 2_300);
    assert_eq!(at, 2_100);
    assert_eq!(attempts, 8);
}

#[test]
fn service_accepting_from_the_start_is_ready_at_once() {
    let (state, at, attempts) = run_on_simulated_clock(Prober::standard(3947), Some(0));
    assert_eq!(state, ReadinessState::Ready);
    assert_eq!(at, 0);
    assert_eq!(attempts, 1);
}

#[test]
fn ready_comes_less_than_one_interval_after_the_service_accepts() {
    let mut from: u64 = 0;
    while from <= 19_800 {
        let (state, at, _) = run_on_simulated_clock(Prober::standard(3947), Some(from));
        assert_eq!(state, ReadinessState::Ready);
        assert!(from <= at && at < from + 300);
        assert_eq!(at, ((from + 299) / 300) * 300);
        from += 37;
    }
}

#[test]
fn service_accepting_at_the_last_poll_instant_is_ready() {
    let (state, at, attempts) = run_on_simulated_clock(Prober::standard(3947), Some(19_800));
    assert_eq!(state, ReadinessState::Ready);
    assert_eq!(at, 19_800);
    assert_eq!(attempts, 67);
}

#[test]
fn service_accepting_after_the_last_poll_instant_times_out() {
    let (state, at, attempts) = run_on_simulated_clock(Prober::standard(3947), Some(19_900));
    assert_eq!(state, ReadinessState::Failed(FailureReason::Timeout));
    assert_eq!(at, 20_100);
    assert_eq!(attempts, 67);
}

#[test]
fn service_that_never_accepts_times_out_within_one_interval_of_the_deadline() {
    let (state, at, attempts) = run_on_simulated_clock(Prober::standard(3947), None);
    assert_eq!(state, ReadinessState::Failed(FailureReason::Timeout));
    assert!(19_700 <= at && at <= 20_300);
    assert_eq!(at, 20_100);
    assert_eq!(attempts, 67);
}

#[test]
fn deadline_that_is_a_poll_instant_still_gets_an_attempt() {
    let (state, at, attempts) = run_on_simulated_clock(Prober::new(8080, 500, 2_000), Some(2_000));
    assert_eq!(state, ReadinessState::Ready);
    assert_eq!(at, 2_000);
    assert_eq!(attempts, 5);
    let (state, at, attempts) = run_on_simulated_clock(Prober::new(8080, 500, 2_000), None);
    assert_eq!(state, ReadinessState::Failed(FailureReason::Timeout));
    assert_eq!(at, 2_500);
    assert_eq!(attempts, 5);
}

#[test]
fn clock_reading_at_the_deadline_connects_and_one_past_it_gives_up() {
    let mut prober = Prober::standard(3947);
    assert_eq!(
        prober.step(ProbeEvent::Tick { elapsed_ms: 20_000 }),
        ProbeAction::Connect { port: 3947 }
    );
    assert_eq!(prober.phase(), ProbePhase::AwaitingConnect);

    let mut prober = Prober::standard(3947);
    assert_eq!(prober.step(ProbeEvent::Tick { elapsed_ms: 20_001 }), ProbeAction::ReportTimeout);
    assert_eq!(prober.phase(), ProbePhase::Failed(FailureReason::Timeout));
    assert_eq!(prober.state(), ReadinessState::Failed(FailureReason::Timeout));
    assert!(prober.is_finished());
    assert_eq!(prober.failure(), Some(SupervisorError::ProbeTimeout { deadline_ms: 20_000 }));
}

#[test]
fn every_connection_error_is_retried_after_one_interval() {
    for error in [ConnectError::Refused, ConnectError::Reset, ConnectError::Other] {
        let mut prober = Prober::standard(3947);
        assert_eq!(
            prober.step(ProbeEvent::Tick { elapsed_ms: 0 }),
            ProbeAction::Connect { port: 3947 }
        );
        assert_eq!(
            prober.step(ProbeEvent::ConnectFailed(error)),
            ProbeAction::Sleep { millis: 300 }
        );
        assert_eq!(prober.phase(), ProbePhase::AwaitingTick);
        assert_eq!(prober.state(), ReadinessState::Starting);
        assert_eq!(
            prober.step(ProbeEvent::Tick { elapsed_ms: 300 }),
            ProbeAction::Connect { port: 3947 }
        );
    }
}

#[test]
fn successful_connection_signals_ready() {
    let mut prober = Prober::standard(3947);
    prober.step(ProbeEvent::Tick { elapsed_ms: 0 });
    assert_eq!(prober.step(ProbeEvent::Connected), ProbeAction::SignalReady);
    assert_eq!(prober.phase(), ProbePhase::Ready);
    assert_eq!(prober.state(), ReadinessState::Ready);
    assert!(prober.is_finished());
    assert_eq!(prober.failure(), None);
}

#[test]
fn ready_signal_fires_at_most_once() {
    let mut prober = Prober::standard(3947);
    let events = [
        ProbeEvent::Tick { elapsed_ms: 0 },
        ProbeEvent::Connected,
        ProbeEvent::Connected,
        ProbeEvent::Tick { elapsed_ms: 300 },
        ProbeEvent::Connected,
        ProbeEvent::ConnectFailed(ConnectError::Reset),
        ProbeEvent::Tick { elapsed_ms: 30_000 },
        ProbeEvent::Connected,
    ];
    let mut signals = 0;
    let mut timeouts = 0;
    for event in events {
        match prober.step(event) {
            ProbeAction::SignalReady => signals += 1,
            ProbeAction::ReportTimeout => timeouts += 1,
            _ => {}
        }
    }
    assert_eq!(signals, 1);
    assert_eq!(timeouts, 0);
    assert_eq!(prober.state(), ReadinessState::Ready);
}

#[test]
fn finished_prober_never_reverts() {
    let mut prober = Prober::standard(3947);
    assert_eq!(prober.step(ProbeEvent::Tick { elapsed_ms: 25_000 }), ProbeAction::ReportTimeout);
    for event in [
        ProbeEvent::Tick { elapsed_ms: 0 },
        ProbeEvent::Connected,
        ProbeEvent::ConnectFailed(ConnectError::Other),
        ProbeEvent::Tick { elapsed_ms: 26_000 },
    ] {
        assert_eq!(prober.step(event), ProbeAction::Idle);
        assert_eq!(prober.state(), ReadinessState::Failed(FailureReason::Timeout));
    }
}

#[test]
fn event_that_the_prober_does_not_wait_for_changes_nothing() {
    let mut prober = Prober::standard(3947);
    assert_eq!(prober.step(ProbeEvent::Connected), ProbeAction::Idle);
    assert_eq!(prober.step(ProbeEvent::ConnectFailed(ConnectError::Refused)), ProbeAction::Idle);
    assert_eq!(prober.phase(), ProbePhase::AwaitingTick);
    prober.step(ProbeEvent::Tick { elapsed_ms: 0 });
    assert_eq!(prober.step(ProbeEvent::Tick { elapsed_ms: 50_000 }), ProbeAction::Idle);
    assert_eq!(prober.phase(), ProbePhase::AwaitingConnect);
    assert_eq!(prober.state(), ReadinessState::Starting);
}

#[test]
fn probe_address_is_loopback_and_port() {
    assert_eq!(probe_address(3947), "127.0.0.1:3947");
    assert_eq!(probe_address(80), "127.0.0.1:80");
    assert_eq!(probe_address(0), "127.0.0.1:0");
    assert_eq!(probe_address(65535), "127.0.0.1:65535");
}
