//! Decisions of the health monitor.
//!
//! The monitor reacts to two inputs: failure reports from the proxy, which
//! mark a backend down at once, and the outcome of periodic TCP probes, which
//! set a backend's health to the probe's verdict. Every report yields a
//! health event; a change of status additionally yields a transition event.
//! Busy backends (100 or more open connections) are not probed.
use vstd::prelude::*;
use crate::health::models::{BackendFailureEvent, HealthEvent, HealthFailureReason, HealthStatus};
use crate::routing::{RouteTable, id_position, lemma_id_position};
use crate::types::{Backend, BackendId, with_health};

verus! {

/// Backends with at least this many open connections are not probed.
pub const HEALTH_CHECK_BUSY_THRESHOLD: usize = 100;

/// Outcome of a TCP health probe.
#[derive(Debug, Clone, Copy, PartialEq, Eq, Structural)]
pub enum ProbeOutcome {
    /// The connection succeeded after this round trip time
    Connected {
        /// Round trip time in microseconds
        rtt_micros: u64,
    },
    /// The connection was refused (or failed otherwise)
    Refused,
    /// The connection attempt timed out
    TimedOut,
}

/// The backend a failure report concerns.
pub open spec fn failure_backend(e: BackendFailureEvent) -> BackendId {
    match e {
        BackendFailureEvent::ConnectionRefused { backend_id } => backend_id,
        BackendFailureEvent::Timeout { backend_id } => backend_id,
        BackendFailureEvent::BackendClosed { backend_id } => backend_id,
        BackendFailureEvent::ConsecutiveErrors { backend_id, .. } => backend_id,
    }
}

/// The reason reported for a proxy failure.
pub open spec fn failure_reason(e: BackendFailureEvent) -> HealthFailureReason {
    match e {
        BackendFailureEvent::ConnectionRefused { .. } => HealthFailureReason::ConnectionRefused,
        BackendFailureEvent::Timeout { .. } => HealthFailureReason::Timeout,
        _ => HealthFailureReason::Transport,
    }
}

/// The status a liveness flag denotes.
pub open spec fn status_of(alive: bool) -> HealthStatus {
    if alive { HealthStatus::Healthy } else { HealthStatus::Unhealthy }
}

/// The events of a status change from `was` to `now` (none when unchanged).
pub open spec fn transition_events(id: BackendId, was: bool, now: bool) -> Seq<HealthEvent> {
    if was != now {
        seq![HealthEvent::HealthTransition { backend_id: id, from: status_of(was), to: status_of(now) }]
    } else {
        Seq::empty()
    }
}

/// Whether a probe outcome means healthy.
pub open spec fn probe_healthy(o: ProbeOutcome) -> bool {
    o is Connected
}

/// The event reporting a probe outcome.
pub open spec fn probe_event(id: BackendId, o: ProbeOutcome) -> HealthEvent {
    match o {
        ProbeOutcome::Connected { rtt_micros } => HealthEvent::BackendHealthy { backend_id: id, rtt_micros },
        ProbeOutcome::Refused => HealthEvent::BackendUnhealthy { backend_id: id, reason: HealthFailureReason::ConnectionRefused },
        ProbeOutcome::TimedOut => HealthEvent::BackendUnhealthy { backend_id: id, reason: HealthFailureReason::Timeout },
    }
}

/// The backend a failure report concerns.
pub fn failure_backend_id(e: &BackendFailureEvent) -> (r: BackendId)
    ensures
        r == failure_backend(*e),
{
    match e {
        BackendFailureEvent::ConnectionRefused { backend_id } => *backend_id,
        BackendFailureEvent::Timeout { backend_id } => *backend_id,
        BackendFailureEvent::BackendClosed { backend_id } => *backend_id,
        BackendFailureEvent::ConsecutiveErrors { backend_id, .. } => *backend_id,
    }
}

fn status(alive: bool) -> (r: HealthStatus)
    ensures
        r == status_of(alive),
{
    if alive { HealthStatus::Healthy } else { HealthStatus::Unhealthy }
}

/// Whether a backend is idle enough to be probed.
pub fn should_probe(b: &Backend) -> (r: bool)
    ensures
        r == (b.active_connections < HEALTH_CHECK_BUSY_THRESHOLD),
{
    b.has_capacity_for_health_check(HEALTH_CHECK_BUSY_THRESHOLD)
}

/// Handles a failure report from the proxy: the backend is marked down at
/// `now_ms`; the events are the unhealthy report and, if it was up, the
/// healthy-to-unhealthy transition. A report about an unknown backend changes
/// nothing and yields no event.
pub fn on_backend_failure(table: &mut RouteTable, failure: BackendFailureEvent, now_ms: u64) -> (r: Vec<HealthEvent>)
    ensures
        ({
            let id = failure_backend(failure);
            let p = id_position(old(table).backends@, id);
            if p >= 0 {
                let was = old(table).backends@[p].alive;
                &&& final(table).backends@ == old(table).backends@.update(p, with_health(old(table).backends@[p], false, now_ms))
                &&& r@ == seq![HealthEvent::BackendUnhealthy { backend_id: id, reason: failure_reason(failure) }]
                    + transition_events(id, was, false)
            } else {
                &&& final(table).backends@ == old(table).backends@
                &&& r@ == Seq::<HealthEvent>::empty()
            }
        }),
{
    let id = failure_backend_id(&failure);
    let mut events: Vec<HealthEvent> = Vec::new();
    match table.set_health(id, false, now_ms) {
        None => {},
        Some(was) => {
            let reason = match failure {
                BackendFailureEvent::ConnectionRefused { .. } => HealthFailureReason::ConnectionRefused,
                BackendFailureEvent::Timeout { .. } => HealthFailureReason::Timeout,
                _ => HealthFailureReason::Transport,
            };
            events.push(HealthEvent::BackendUnhealthy { backend_id: id, reason });
            if was {
                events.push(
                    HealthEvent::HealthTransition {
                        backend_id: id,
                        from: HealthStatus::Healthy,
                        to: HealthStatus::Unhealthy,
                    },
                );
            }
        },
    }
    proof {
        let p = id_position(old(table).backends@, id);
        if p >= 0 {
            let was = old(table).backends@[p].alive;
            assert(events@ =~= seq![HealthEvent::BackendUnhealthy { backend_id: id, reason: failure_reason(failure) }]
                + transition_events(id, was, false));
        } else {
            assert(events@ =~= Seq::<HealthEvent>::empty());
        }
    }
    events
}

/// Handles the outcome of a probe of the backend with the given id: the
/// outcome is reported, the backend's health becomes the probe's verdict at
/// `now_ms`, and a change of status is reported as a transition. A probe of an
/// unknown backend is reported and changes nothing.
pub fn on_probe_result(table: &mut RouteTable, backend_id: BackendId, outcome: ProbeOutcome, now_ms: u64) -> (r: Vec<HealthEvent>)
    ensures
        ({
            let p = id_position(old(table).backends@, backend_id);
            let healthy = probe_healthy(outcome);
            if p >= 0 {
                let was = old(table).backends@[p].alive;
                &&& final(table).backends@ == old(table).backends@.update(p, with_health(old(table).backends@[p], healthy, now_ms))
                &&& r@ == seq![probe_event(backend_id, outcome)] + transition_events(backend_id, was, healthy)
            } else {
                &&& final(table).backends@ == old(table).backends@
                &&& r@ == seq![probe_event(backend_id, outcome)]
            }
        }),
        ({
            let p = id_position(old(table).backends@, backend_id);
            &&& final(table).backends@.len() == old(table).backends@.len()
            &&& p >= 0 ==> final(table).backends@[p].alive == (outcome is Connected)
            &&& p >= 0 && old(table).backends@[p].alive && !(outcome is Connected) ==> r@.contains(
                HealthEvent::HealthTransition { backend_id, from: HealthStatus::Healthy, to: HealthStatus::Unhealthy },
            )
            &&& p >= 0 && !old(table).backends@[p].alive && (outcome is Connected) ==> r@.contains(
                HealthEvent::HealthTransition { backend_id, from: HealthStatus::Unhealthy, to: HealthStatus::Healthy },
            )
            &&& outcome is TimedOut ==> r@[0] == (HealthEvent::BackendUnhealthy {
                backend_id,
                reason: HealthFailureReason::Timeout,
            })
            &&& outcome is Refused ==> r@[0] == (HealthEvent::BackendUnhealthy {
                backend_id,
                reason: HealthFailureReason::ConnectionRefused,
            })
        }),
{
    let mut events: Vec<HealthEvent> = Vec::new();
    let healthy = match outcome {
        ProbeOutcome::Connected { rtt_micros } => {
            events.push(HealthEvent::BackendHealthy { backend_id, rtt_micros });
            true
        },
        ProbeOutcome::Refused => {
            events.push(
                HealthEvent::BackendUnhealthy { backend_id, reason: HealthFailureReason::ConnectionRefused },
            );
            false
        },
        ProbeOutcome::TimedOut => {
            events.push(HealthEvent::BackendUnhealthy { backend_id, reason: HealthFailureReason::Timeout });
            false
        },
    };
    match table.set_health(backend_id, healthy, now_ms) {
        None => {},
        Some(was) => {
            if was != healthy {
                events.push(
                    HealthEvent::HealthTransition { backend_id, from: status(was), to: status(healthy) },
                );
            }
        },
    }
    proof {
        lemma_id_position(old(table).backends@, backend_id);
        let p = id_position(old(table).backends@, backend_id);
        if p >= 0 {
            let was = old(table).backends@[p].alive;
            assert(events@ =~= seq![probe_event(backend_id, outcome)] + transition_events(backend_id, was, healthy));
            if was != healthy {
                assert(events@[1] == transition_events(backend_id, was, healthy)[0]);
                assert(events@.contains(events@[1]));
            }
        } else {
            assert(events@ =~= seq![probe_event(backend_id, outcome)]);
        }
    }
    events
}

/// After a probe the backend's health is the probe's verdict, and a
/// transition is reported exactly when that verdict differs from the status
/// before; a proxy failure report always leaves the backend down.
pub proof fn lemma_health_follows_probe(b: Backend, id: BackendId, outcome: ProbeOutcome, now_ms: u64)
    ensures
        with_health(b, probe_healthy(outcome), now_ms).alive == probe_healthy(outcome),
        transition_events(id, b.alive, probe_healthy(outcome)).len() == (if b.alive != probe_healthy(outcome) { 1int } else { 0int }),
        !with_health(b, false, now_ms).alive,
        with_health(b, probe_healthy(outcome), now_ms).active_connections == b.active_connections,
{
}

/// A probe's verdict is its outcome: only a connection that succeeded
/// counts as healthy; a refused or timed-out probe marks the backend down,
/// and a backend that was up then gets a healthy-to-unhealthy transition.
pub proof fn lemma_probe_verdict(was: bool, backend_id: BackendId, outcome: ProbeOutcome)
    ensures
        probe_healthy(outcome) == (outcome is Connected),
        was && !(outcome is Connected) ==> transition_events(backend_id, was, probe_healthy(outcome))
            == seq![HealthEvent::HealthTransition { backend_id, from: HealthStatus::Healthy, to: HealthStatus::Unhealthy }],
{
}

} // verus!
