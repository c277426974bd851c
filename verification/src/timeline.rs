//! The prober on an ideal timeline.
//!
//! On an ideal timeline a clock reading and a connection attempt take no
//! time, and a sleep lasts exactly as long as it was asked to. The first
//! clock reading is taken at time zero. The service either never accepts a
//! connection, or accepts every connection from some instant on. Under these
//! assumptions the outcome of a probe is a function of the prober and of that
//! instant, and the statements below say when it comes and what it is.

use vstd::prelude::*;
use crate::prober::{
    ConnectError,
    FailureReason,
    ProbeAction,
    ProbeEvent,
    ProbePhase,
    ProberView,
    step_model,
};

verus! {

/// The provisions under which a prober's clock readings fit the clock: the
/// interval is positive, and one interval past the deadline is still a time
/// the clock can show.
pub open spec fn timeline_valid(v: ProberView) -> bool {
    &&& v.interval_ms > 0
    &&& v.deadline_ms + v.interval_ms <= u64::MAX
}

/// Whether a service that accepts connections from `accepting_from` on
/// (never, if `None`) accepts one at time `now`.
pub open spec fn accepts_at(accepting_from: Option<nat>, now: nat) -> bool {
    accepting_from matches Some(from) && from <= now
}

/// The last instant at which the prober still attempts a connection: the
/// largest multiple of the interval that is not after the deadline.
pub open spec fn last_poll_instant(v: ProberView) -> nat {
    ((v.deadline_ms / v.interval_ms) * v.interval_ms) as nat
}

/// The first poll instant at or after `instant`: the smallest multiple of the
/// interval that is not before it.
pub open spec fn first_poll_from(v: ProberView, instant: nat) -> nat {
    (((instant + v.interval_ms - 1) / (v.interval_ms as int)) * v.interval_ms) as nat
}

/// The probe from time `now` on, the prober waiting for a clock reading: the
/// prober when the probe is over, and the time at which that is.
///
/// The host reads the clock and hands the reading to the prober. Asked to
/// connect, it reports success if the service accepts at that time and a
/// refusal otherwise; asked to sleep, it lets that many milliseconds pass and
/// reads the clock again. Any other action ends the probe.
pub open spec fn ideal_run(v: ProberView, now: nat, accepting_from: Option<nat>) -> (
    ProberView,
    nat,
)
    decreases v.deadline_ms + v.interval_ms - now,
    when timeline_valid(v) && now <= v.deadline_ms + v.interval_ms
{
    let (polled, action) = step_model(v, ProbeEvent::Tick { elapsed_ms: now as u64 });
    if action is Connect {
        if accepts_at(accepting_from, now) {
            (step_model(polled, ProbeEvent::Connected).0, now)
        } else {
            let (slept, pause) = step_model(
                polled,
                ProbeEvent::ConnectFailed(ConnectError::Refused),
            );
            match pause {
                ProbeAction::Sleep { millis } => ideal_run(
                    slept,
                    now + millis as nat,
                    accepting_from,
                ),
                _ => (slept, now),
            }
        }
    } else {
        (polled, now)
    }
}

proof fn lemma_poll_instants(v: ProberView)
    requires
        timeline_valid(v),
    ensures
        last_poll_instant(v) <= v.deadline_ms < last_poll_instant(v) + v.interval_ms,
        last_poll_instant(v) == (v.deadline_ms / v.interval_ms) * v.interval_ms,
        v.deadline_ms / v.interval_ms >= 0,
{
    let i = v.interval_ms as int;
    let dl = v.deadline_ms as int;
    assert(0 <= (dl / i) * i <= dl < (dl / i) * i + i && dl / i >= 0) by (nonlinear_arith)
        requires
            i > 0,
            dl >= 0,
    ;
}

proof fn lemma_next_multiple(k: int, n: int, i: int, d: int)
    requires
        i > 0,
        0 <= k,
        k * i < d <= n * i,
    ensures
        k + 1 <= n,
        (k + 1) * i == k * i + i,
        (k + 1) * i <= n * i,
{
    assert(k < n) by (nonlinear_arith)
        requires
            i > 0,
            k * i < n * i,
    ;
    assert((k + 1) * i == k * i + i) by (nonlinear_arith);
    assert((k + 1) * i <= n * i) by (nonlinear_arith)
        requires
            i > 0,
            k + 1 <= n,
    ;
}

proof fn lemma_ready_from(v: ProberView, now: nat, k: nat, from: nat) -> (j: nat)
    requires
        timeline_valid(v),
        v.phase == ProbePhase::AwaitingTick,
        now == k * v.interval_ms,
        now <= last_poll_instant(v),
        from <= last_poll_instant(v),
        k > 0 ==> from + v.interval_ms > now,
    ensures
        ideal_run(v, now, Some(from)).0 == (ProberView { phase: ProbePhase::Ready, ..v }),
        from <= ideal_run(v, now, Some(from)).1 < from + v.interval_ms,
        now <= ideal_run(v, now, Some(from)).1 <= last_poll_instant(v),
        ideal_run(v, now, Some(from)).1 == j * v.interval_ms,
    decreases last_poll_instant(v) - now,
{
    lemma_poll_instants(v);
    let i = v.interval_ms as int;
    let n = v.deadline_ms as int / i;
    assert(now as u64 == now);
    if from <= now {
        assert(accepts_at(Some(from), now));
        k
    } else {
        lemma_next_multiple(k as int, n, i, from as int);
        assert(!accepts_at(Some(from), now));
        let polled = step_model(v, ProbeEvent::Tick { elapsed_ms: now as u64 }).0;
        let slept = step_model(polled, ProbeEvent::ConnectFailed(ConnectError::Refused)).0;
        assert(slept == v);
        let j = lemma_ready_from(v, now + v.interval_ms as nat, k + 1, from);
        assert(ideal_run(v, now, Some(from)) == ideal_run(
            v,
            now + v.interval_ms as nat,
            Some(from),
        ));
        j
    }
}

proof fn lemma_timeout_from(v: ProberView, now: nat, k: nat, accepting_from: Option<nat>)
    requires
        timeline_valid(v),
        v.phase == ProbePhase::AwaitingTick,
        now == k * v.interval_ms,
        now <= last_poll_instant(v) + v.interval_ms,
        accepting_from matches Some(from) ==> from > last_poll_instant(v),
    ensures
        ideal_run(v, now, accepting_from).0 == (ProberView {
            phase: ProbePhase::Failed(FailureReason::Timeout),
            ..v
        }),
        ideal_run(v, now, accepting_from).1 == last_poll_instant(v) + v.interval_ms,
    decreases last_poll_instant(v) + v.interval_ms - now,
{
    lemma_poll_instants(v);
    let i = v.interval_ms as int;
    let n = v.deadline_ms as int / i;
    assert(now as u64 == now);
    assert((k + 1) * i == k * i + i) by (nonlinear_arith);
    if now <= last_poll_instant(v) {
        assert(!accepts_at(accepting_from, now));
        let polled = step_model(v, ProbeEvent::Tick { elapsed_ms: now as u64 }).0;
        let slept = step_model(polled, ProbeEvent::ConnectFailed(ConnectError::Refused)).0;
        assert(slept == v);
        lemma_timeout_from(v, now + v.interval_ms as nat, k + 1, accepting_from);
        assert(ideal_run(v, now, accepting_from) == ideal_run(
            v,
            now + v.interval_ms as nat,
            accepting_from,
        ));
    } else {
        // Both are multiples of the interval, so the first one after the
        // last poll instant is one interval after it.
        assert(now == n * i + i) by (nonlinear_arith)
            requires
                now == k * i,
                i > 0,
                n * i < now <= n * i + i,
        ;
    }
}

/// If the service accepts connections from `from` milliseconds on, and
/// `from` is not after the last poll instant, the prober reports `Ready`. It
/// does so at the first poll instant at or after `from`, which is less than
/// one interval after `from` and not after the deadline.
pub proof fn lemma_ready_within_one_interval(v: ProberView, from: nat)
    requires
        timeline_valid(v),
        v.phase == ProbePhase::AwaitingTick,
        from <= last_poll_instant(v),
    ensures
        ideal_run(v, 0, Some(from)).0 == (ProberView { phase: ProbePhase::Ready, ..v }),
        ideal_run(v, 0, Some(from)).1 == first_poll_from(v, from),
        from <= ideal_run(v, 0, Some(from)).1 < from + v.interval_ms,
        ideal_run(v, 0, Some(from)).1 <= v.deadline_ms,
{
    lemma_poll_instants(v);
    assert(0 * v.interval_ms == 0);
    let j = lemma_ready_from(v, 0, 0, from);
    let i = v.interval_ms as int;
    assert(j == (from + i - 1) / i) by (nonlinear_arith)
        requires
            i > 0,
            j >= 0,
            from <= j * i < from + i,
    ;
}

/// If the service never accepts a connection, or only from an instant after
/// the last poll instant on, the prober reports `Failed(Timeout)`, and it
/// does so at the first multiple of the interval after the deadline: after
/// the deadline, and at most one interval after it.
pub proof fn lemma_timeout_within_one_interval(v: ProberView, accepting_from: Option<nat>)
    requires
        timeline_valid(v),
        v.phase == ProbePhase::AwaitingTick,
        accepting_from matches Some(from) ==> from > last_poll_instant(v),
    ensures
        ideal_run(v, 0, accepting_from).0 == (ProberView {
            phase: ProbePhase::Failed(FailureReason::Timeout),
            ..v
        }),
        ideal_run(v, 0, accepting_from).1 == last_poll_instant(v) + v.interval_ms,
        v.deadline_ms < ideal_run(v, 0, accepting_from).1 <= v.deadline_ms + v.interval_ms,
{
    lemma_poll_instants(v);
    assert(0 * v.interval_ms == 0);
    lemma_timeout_from(v, 0, 0, accepting_from);
}

} // verus!
