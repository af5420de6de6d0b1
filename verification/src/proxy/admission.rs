//! Decisions of the proxy: admitting connections, routing them, and the
//! bookkeeping around each proxied connection.
use vstd::prelude::*;
use crate::config::models::ConfigEvent;
use crate::health::models::BackendFailureEvent;
use crate::metrics::models::{MetricsErrorClass, MetricsEvent};
use crate::proxy::models::ConnectionEvent;
use crate::routing::{RouteTable, drained, id_position, lemma_id_position, total_connections};
use crate::strategy::error::StrategyError;
use crate::text::str_equals;
use crate::types::{
    Backend, BackendId, BackendMeta, accepts_connections, with_connection_closed, with_connection_opened,
};

verus! {

/// What happens to an accepted client connection.
#[derive(Debug, Clone, PartialEq, Eq)]
pub enum Admission {
    /// Rejected: the configured connection limit is reached
    AtCapacity,
    /// Rejected: the strategy found no backend
    NoBackend(StrategyError),
    /// Rejected: the picked backend is not in the routing table
    UnknownBackend(BackendId),
    /// Rejected: the picked backend is draining or down
    Unavailable(BackendId),
    /// Forward to this backend
    Forward(BackendId),
}

/// The total number of open connections as the proxy counts it (capped at `usize::MAX`).
pub open spec fn counted_connections(table: RouteTable) -> nat {
    if total_connections(table.backends@) > usize::MAX { usize::MAX as nat } else { total_connections(table.backends@) }
}

/// Whether a configured limit is reached: at least `max` connections are open.
pub open spec fn limit_reached(table: RouteTable, max_connections: Option<u64>) -> bool {
    match max_connections {
        Some(m) => counted_connections(table) >= (m as usize),
        None => false,
    }
}

/// Whether no new connection may be accepted under the connection limit.
pub fn at_capacity(table: &RouteTable, max_connections: Option<u64>) -> (r: bool)
    ensures
        r == limit_reached(*table, max_connections),
{
    match max_connections {
        Some(m) => table.total_active_connections() >= m as usize,
        None => false,
    }
}

/// Routes a connection given the strategy's pick: the picked backend must be
/// in the routing table and accept new connections.
pub fn route(table: &RouteTable, picked: Result<BackendMeta, StrategyError>) -> (r: Admission)
    ensures
        match picked {
            Err(e) => r == Admission::NoBackend(e),
            Ok(m) => {
                let p = id_position(table.backends@, m.id);
                if p < 0 {
                    r == Admission::UnknownBackend(m.id)
                } else if !accepts_connections(table.backends@[p]) {
                    r == Admission::Unavailable(m.id)
                } else {
                    r == Admission::Forward(m.id)
                }
            },
        },
{
    proof {
        if picked is Ok {
            lemma_id_position(table.backends@, picked->Ok_0.id);
        }
    }
    match picked {
        Err(e) => Admission::NoBackend(e),
        Ok(m) => match table.get(m.id) {
            None => Admission::UnknownBackend(m.id),
            Some(b) => if b.can_accept_new_connections() {
                Admission::Forward(m.id)
            } else {
                Admission::Unavailable(m.id)
            },
        },
    }
}

/// The address to rebind to after a configuration event: a changed listen
/// address different from the current one. Listen addresses are held in the
/// canonical rendering of a socket address, so two texts differ exactly when
/// the addresses do.
pub fn rebind_target(event: &ConfigEvent, current: &str) -> (r: Option<String>)
    ensures
        match event {
            ConfigEvent::ListenAddressChanged(a) => if a@ != current@ {
                r matches Some(t) && t@ == a@
            } else {
                r is None
            },
            ConfigEvent::Migrated => r is None,
        },
{
    match event {
        ConfigEvent::ListenAddressChanged(a) => if !str_equals(a.as_str(), current) {
            Some(a.clone())
        } else {
            None
        },
        ConfigEvent::Migrated => None,
    }
}

/// Why connecting to a backend failed.
#[derive(Debug, Clone, Copy, PartialEq, Eq, Structural)]
pub enum ConnectFailure {
    /// The backend refused the connection
    ConnectionRefused,
    /// The attempt timed out
    TimedOut,
    /// Any other error
    Other,
}

/// The failure report for a failed connection attempt.
pub open spec fn failure_for(kind: ConnectFailure, backend_id: BackendId) -> BackendFailureEvent {
    match kind {
        ConnectFailure::ConnectionRefused => BackendFailureEvent::ConnectionRefused { backend_id },
        ConnectFailure::TimedOut => BackendFailureEvent::Timeout { backend_id },
        ConnectFailure::Other => BackendFailureEvent::BackendClosed { backend_id },
    }
}

/// The table after a connection to the backend with the given id closed:
/// the count of the first backend with that id goes down, and the backends
/// that have finished draining leave the table.
pub open spec fn after_close(s: Seq<Backend>, backend_id: BackendId) -> Seq<Backend> {
    let p = id_position(s, backend_id);
    let closed = if p >= 0 { s.update(p, with_connection_closed(s[p])) } else { s };
    closed.filter(|b: Backend| !drained(b))
}

/// A connection to the backend with the given id is being opened: its count
/// goes up and the opening is reported.
pub fn on_connection_opened(table: &mut RouteTable, backend_id: BackendId) -> (r: ConnectionEvent)
    ensures
        r == (ConnectionEvent::Opened { backend_id }),
        ({
            let p = id_position(old(table).backends@, backend_id);
            &&& p >= 0 ==> final(table).backends@ == old(table).backends@.update(p, with_connection_opened(old(table).backends@[p]))
            &&& p < 0 ==> final(table).backends@ == old(table).backends@
        }),
{
    table.increment_connection(backend_id);
    ConnectionEvent::Opened { backend_id }
}

/// Connecting to the backend failed after `elapsed_micros`: its count goes
/// back down (see [`after_close`]); the failure is reported to the health monitor and as a failed
/// request to the metrics.
pub fn on_connect_failed(table: &mut RouteTable, backend_id: BackendId, kind: ConnectFailure, elapsed_micros: u64) -> (r: (BackendFailureEvent, MetricsEvent))
    ensures
        r.0 == failure_for(kind, backend_id),
        r.1 == (MetricsEvent::RequestFailed {
            backend_id,
            latency_micros: elapsed_micros,
            error_class: MetricsErrorClass::ConnectionRefused,
        }),
        final(table).backends@ == after_close(old(table).backends@, backend_id),
{
    table.decrement_connection(backend_id);
    table.prune_drained();
    let failure = match kind {
        ConnectFailure::ConnectionRefused => BackendFailureEvent::ConnectionRefused { backend_id },
        ConnectFailure::TimedOut => BackendFailureEvent::Timeout { backend_id },
        ConnectFailure::Other => BackendFailureEvent::BackendClosed { backend_id },
    };
    (
        failure,
        MetricsEvent::RequestFailed {
            backend_id,
            latency_micros: elapsed_micros,
            error_class: MetricsErrorClass::ConnectionRefused,
        },
    )
}

/// A proxied connection ended after `duration_micros`, having sent
/// `bytes_sent` to the backend and received `bytes_received` from it: the
/// count goes back down (see [`after_close`]); the close is reported with the bytes in (received)
/// and out (sent).
pub fn on_connection_finished(
    table: &mut RouteTable,
    backend_id: BackendId,
    duration_micros: u64,
    bytes_sent: u64,
    bytes_received: u64,
) -> (r: (ConnectionEvent, MetricsEvent))
    ensures
        r.0 == (ConnectionEvent::Closed { backend_id }),
        r.1 == (MetricsEvent::ConnectionClosed {
            backend_id,
            duration_micros,
            bytes_in: bytes_received,
            bytes_out: bytes_sent,
        }),
        final(table).backends@ == after_close(old(table).backends@, backend_id),
{
    table.decrement_connection(backend_id);
    table.prune_drained();
    (
        ConnectionEvent::Closed { backend_id },
        MetricsEvent::ConnectionClosed { backend_id, duration_micros, bytes_in: bytes_received, bytes_out: bytes_sent },
    )
}

/// Every opened connection is closed exactly once, so a backend's count
/// returns to its value before the connection (below the counter's cap), and
/// closing never takes a count below zero.
pub proof fn lemma_connection_balance(b: Backend)
    ensures
        b.active_connections < usize::MAX ==> with_connection_closed(with_connection_opened(b)) == b,
        with_connection_closed(b).active_connections <= b.active_connections,
        b.active_connections == 0 ==> with_connection_closed(b) == b,
{
}

} // verus!
