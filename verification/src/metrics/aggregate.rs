//! Aggregation of metrics events into backend state.
//!
//! Connection closes and completed requests are recorded as successful
//! requests, failed requests as failed ones, each with its latency in whole
//! milliseconds (microseconds divided by 1000, rounded down). A flush stamps
//! every backend with the current time; an opened connection needs no record.
use vstd::prelude::*;
use crate::metrics::models::MetricsEvent;
use crate::routing::{RouteTable, id_position, lemma_id_position};
use crate::types::{Backend, BackendId, sat_add};

verus! {

/// The request a metrics event records, as (backend, latency in ms, failed).
pub open spec fn recorded_request(e: MetricsEvent) -> Option<(BackendId, u64, bool)> {
    match e {
        MetricsEvent::ConnectionOpened { .. } => None,
        MetricsEvent::ConnectionClosed { backend_id, duration_micros, .. } => Some(
            (backend_id, (duration_micros / 1000) as u64, false),
        ),
        MetricsEvent::RequestCompleted { backend_id, latency_micros, .. } => Some(
            (backend_id, (latency_micros / 1000) as u64, false),
        ),
        MetricsEvent::RequestFailed { backend_id, latency_micros, .. } => Some(
            (backend_id, (latency_micros / 1000) as u64, true),
        ),
        MetricsEvent::FlushSnapshot => None,
    }
}

/// The backend a metrics event concerns (0 for a flush, which concerns all).
pub open spec fn metrics_event_backend(e: MetricsEvent) -> BackendId {
    match e {
        MetricsEvent::ConnectionOpened { backend_id, .. } => backend_id,
        MetricsEvent::ConnectionClosed { backend_id, .. } => backend_id,
        MetricsEvent::RequestCompleted { backend_id, .. } => backend_id,
        MetricsEvent::RequestFailed { backend_id, .. } => backend_id,
        MetricsEvent::FlushSnapshot => 0,
    }
}

/// Every request event counts one request with its latency in whole
/// milliseconds (microseconds divided by 1000), failed or not; a failed
/// request also counts as an error. Opening a connection and flushing record
/// no request.
pub proof fn lemma_request_events_record_latency(e: MetricsEvent)
    ensures
        e matches MetricsEvent::RequestFailed { backend_id, latency_micros, .. } ==> recorded_request(e) == Some(
            (backend_id, latency_micros / 1000, true),
        ),
        e matches MetricsEvent::RequestCompleted { backend_id, latency_micros, .. } ==> recorded_request(e) == Some(
            (backend_id, latency_micros / 1000, false),
        ),
        e matches MetricsEvent::ConnectionClosed { backend_id, duration_micros, .. } ==> recorded_request(e) == Some(
            (backend_id, duration_micros / 1000, false),
        ),
        e is ConnectionOpened || e is FlushSnapshot ==> recorded_request(e) is None,
{
}

/// Applies one metrics event to the routing table.
pub fn apply_metrics_event(table: &mut RouteTable, event: MetricsEvent, now_ms: u64)
    ensures
        match recorded_request(event) {
            Some((id, latency_ms, failed)) => {
                let p = crate::routing::id_position(old(table).backends@, id);
                &&& p >= 0 ==> final(table).backends@ == old(table).backends@.update(
                    p,
                    crate::types::with_request(old(table).backends@[p], latency_ms, failed),
                )
                &&& p < 0 ==> final(table).backends@ == old(table).backends@
            },
            None => if event is FlushSnapshot {
                &&& final(table).backends@.len() == old(table).backends@.len()
                &&& forall|i: int| 0 <= i < old(table).backends@.len() ==> #[trigger] final(table).backends@[i]
                    == (Backend { metrics_updated_ms: now_ms, ..old(table).backends@[i] })
            } else {
                final(table).backends@ == old(table).backends@
            },
        },
        final(table).backends@.len() == old(table).backends@.len(),
        match event {
            MetricsEvent::RequestFailed { backend_id, latency_micros, .. } => {
                let p = id_position(old(table).backends@, backend_id);
                let b = old(table).backends@[p];
                p >= 0 ==> {
                    &&& final(table).backends@[p].latency_total_ms == sat_add(b.latency_total_ms, latency_micros / 1000)
                    &&& final(table).backends@[p].request_count == sat_add(b.request_count, 1)
                    &&& final(table).backends@[p].error_count == sat_add(b.error_count, 1)
                }
            },
            MetricsEvent::RequestCompleted { backend_id, latency_micros, .. } => {
                let p = id_position(old(table).backends@, backend_id);
                let b = old(table).backends@[p];
                p >= 0 ==> {
                    &&& final(table).backends@[p].latency_total_ms == sat_add(b.latency_total_ms, latency_micros / 1000)
                    &&& final(table).backends@[p].request_count == sat_add(b.request_count, 1)
                    &&& final(table).backends@[p].error_count == b.error_count
                }
            },
            MetricsEvent::ConnectionClosed { backend_id, duration_micros, .. } => {
                let p = id_position(old(table).backends@, backend_id);
                let b = old(table).backends@[p];
                p >= 0 ==> {
                    &&& final(table).backends@[p].latency_total_ms == sat_add(b.latency_total_ms, duration_micros / 1000)
                    &&& final(table).backends@[p].request_count == sat_add(b.request_count, 1)
                    &&& final(table).backends@[p].error_count == b.error_count
                }
            },
            _ => true,
        },
{
    proof {
        lemma_id_position(old(table).backends@, metrics_event_backend(event));
    }
    match event {
        MetricsEvent::ConnectionOpened { .. } => {},
        MetricsEvent::ConnectionClosed { backend_id, duration_micros, .. } => {
            table.record_request(backend_id, duration_micros / 1000, false);
        },
        MetricsEvent::RequestCompleted { backend_id, latency_micros, .. } => {
            table.record_request(backend_id, latency_micros / 1000, false);
        },
        MetricsEvent::RequestFailed { backend_id, latency_micros, .. } => {
            table.record_request(backend_id, latency_micros / 1000, true);
        },
        MetricsEvent::FlushSnapshot => {
            table.update_metrics_timestamps(now_ms);
        },
    }
}

} // verus!
