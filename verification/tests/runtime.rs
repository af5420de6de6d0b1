use lemonade::health::models::{BackendFailureEvent, HealthEvent, HealthFailureReason, HealthStatus};
use lemonade::health::monitor::{on_backend_failure, on_probe_result, should_probe, ProbeOutcome};
use lemonade::metrics::aggregate::apply_metrics_event;
use lemonade::metrics::models::{MetricsErrorClass, MetricsEvent};
use lemonade::proxy::admission::{
    at_capacity, on_connect_failed, on_connection_finished, on_connection_opened, rebind_target, route,
    Admission, ConnectFailure,
};
use lemonade::config::models::ConfigEvent;
use lemonade::proxy::models::ConnectionEvent;
use lemonade::routing::RouteTable;
use lemonade::strategy::error::StrategyError;
use lemonade::types::{BackendConfig, BackendMeta};

fn meta(id: u8) -> BackendMeta {
    BackendMeta::new(id, None, format!("10.0.0.{}:80", id), None)
}

fn table() -> RouteTable {
    RouteTable::new(vec![meta(0), meta(1), meta(2)])
}

#[test]
fn routing_table_lookup_and_health() {
    let mut t = table();
    assert_eq!(t.len(), 3);
    assert_eq!(t.find_index(2), Some(2));
    assert_eq!(t.find_index(9), None);
    assert!(t.get(1).unwrap().is_alive());
    assert_eq!(t.set_health(1, false, 77), Some(true));
    assert_eq!(t.set_health(9, false, 77), None);
    let healthy: Vec<u8> = t.healthy_backends().iter().map(|b| b.id()).collect();
    assert_eq!(healthy, vec![0, 2]);
    assert_eq!(t.get(1).unwrap().last_health_check_ms, 77);
}

#[test]
fn routing_table_from_configs() {
    let configs = vec![BackendConfig::from(BackendMeta::new(4, Some("w".to_string()), "h:1".to_string(), Some(3)))];
    let t = RouteTable::from_configs(&configs);
    let b = t.get(4).unwrap();
    assert_eq!(b.meta.name(), Some("w"));
    assert_eq!(b.meta.address(), "h:1");
    assert_eq!(b.meta.weight(), Some(3));
    assert_eq!(b.active_connections(), 0);
}

#[test]
fn proxy_failure_marks_backend_down_once() {
    let mut t = table();
    let events = on_backend_failure(&mut t, BackendFailureEvent::Timeout { backend_id: 1 }, 10);
    assert_eq!(
        events,
        vec![
            HealthEvent::BackendUnhealthy { backend_id: 1, reason: HealthFailureReason::Timeout },
            HealthEvent::HealthTransition { backend_id: 1, from: HealthStatus::Healthy, to: HealthStatus::Unhealthy },
        ]
    );
    let again = on_backend_failure(&mut t, BackendFailureEvent::ConsecutiveErrors { backend_id: 1, count: 5 }, 11);
    assert_eq!(again, vec![HealthEvent::BackendUnhealthy { backend_id: 1, reason: HealthFailureReason::Transport }]);
    assert!(on_backend_failure(&mut t, BackendFailureEvent::BackendClosed { backend_id: 42 }, 12).is_empty());
}

#[test]
fn probes_set_health_and_report_transitions() {
    let mut t = table();
    let events = on_probe_result(&mut t, 0, ProbeOutcome::Connected { rtt_micros: 120 }, 5);
    assert_eq!(events, vec![HealthEvent::BackendHealthy { backend_id: 0, rtt_micros: 120 }]);
    let events = on_probe_result(&mut t, 0, ProbeOutcome::Refused, 6);
    assert_eq!(
        events,
        vec![
            HealthEvent::BackendUnhealthy { backend_id: 0, reason: HealthFailureReason::ConnectionRefused },
            HealthEvent::HealthTransition { backend_id: 0, from: HealthStatus::Healthy, to: HealthStatus::Unhealthy },
        ]
    );
    assert!(!t.get(0).unwrap().is_alive());
    let events = on_probe_result(&mut t, 0, ProbeOutcome::Connected { rtt_micros: 3 }, 7);
    assert_eq!(
        events,
        vec![
            HealthEvent::BackendHealthy { backend_id: 0, rtt_micros: 3 },
            HealthEvent::HealthTransition { backend_id: 0, from: HealthStatus::Unhealthy, to: HealthStatus::Healthy },
        ]
    );
    let events = on_probe_result(&mut t, 9, ProbeOutcome::TimedOut, 8);
    assert_eq!(events, vec![HealthEvent::BackendUnhealthy { backend_id: 9, reason: HealthFailureReason::Timeout }]);
}

#[test]
fn busy_backends_are_not_probed() {
    let mut t = table();
    for _ in 0..99 {
        t.increment_connection(2);
    }
    assert!(should_probe(t.get(2).unwrap()));
    t.increment_connection(2);
    assert!(!should_probe(t.get(2).unwrap()));
}

#[test]
fn metrics_events_update_backend_records() {
    let mut t = table();
    apply_metrics_event(&mut t, MetricsEvent::ConnectionClosed { backend_id: 0, duration_micros: 12_999, bytes_in: 1, bytes_out: 2 }, 0);
    apply_metrics_event(&mut t, MetricsEvent::RequestCompleted { backend_id: 0, latency_micros: 8_000, status_code: 200 }, 0);
    apply_metrics_event(&mut t, MetricsEvent::RequestFailed { backend_id: 0, latency_micros: 999, error_class: MetricsErrorClass::Unknown }, 0);
    apply_metrics_event(&mut t, MetricsEvent::ConnectionOpened { backend_id: 0, at_micros: 5 }, 0);
    let b = t.get(0).unwrap();
    assert_eq!(b.request_count, 3);
    assert_eq!(b.latency_total_ms, 20);
    assert_eq!(b.error_count, 1);
    apply_metrics_event(&mut t, MetricsEvent::FlushSnapshot, 4242);
    assert!(t.backends.iter().all(|b| b.metrics_updated_ms == 4242));
}

#[test]
fn admission_respects_connection_limit() {
    let mut t = table();
    assert!(!at_capacity(&t, None));
    assert!(!at_capacity(&t, Some(2)));
    on_connection_opened(&mut t, 0);
    on_connection_opened(&mut t, 1);
    assert!(at_capacity(&t, Some(2)));
    assert!(!at_capacity(&t, Some(3)));
    assert_eq!(t.total_active_connections(), 2);
}

#[test]
fn routing_decisions() {
    let mut t = table();
    assert_eq!(route(&t, Ok(meta(1))), Admission::Forward(1));
    assert_eq!(route(&t, Ok(meta(8))), Admission::UnknownBackend(8));
    assert_eq!(
        route(&t, Err(StrategyError::NoBackendAvailable)),
        Admission::NoBackend(StrategyError::NoBackendAvailable)
    );
    t.set_health(1, false, 0);
    assert_eq!(route(&t, Ok(meta(1))), Admission::Unavailable(1));
    t.set_health(1, true, 0);
    t.backends[1].draining = true;
    assert_eq!(route(&t, Ok(meta(1))), Admission::Unavailable(1));
}

#[test]
fn connection_bookkeeping_balances() {
    let mut t = table();
    assert_eq!(on_connection_opened(&mut t, 2), ConnectionEvent::Opened { backend_id: 2 });
    assert_eq!(t.get(2).unwrap().active_connections(), 1);
    let (closed, metrics) = on_connection_finished(&mut t, 2, 500, 10, 20);
    assert_eq!(closed, ConnectionEvent::Closed { backend_id: 2 });
    assert_eq!(
        metrics,
        MetricsEvent::ConnectionClosed { backend_id: 2, duration_micros: 500, bytes_in: 20, bytes_out: 10 }
    );
    assert_eq!(t.get(2).unwrap().active_connections(), 0);
    on_connection_opened(&mut t, 1);
    let (failure, metrics) = on_connect_failed(&mut t, 1, ConnectFailure::ConnectionRefused, 77);
    assert_eq!(failure, BackendFailureEvent::ConnectionRefused { backend_id: 1 });
    assert_eq!(
        metrics,
        MetricsEvent::RequestFailed { backend_id: 1, latency_micros: 77, error_class: MetricsErrorClass::ConnectionRefused }
    );
    assert_eq!(on_connect_failed(&mut t, 1, ConnectFailure::TimedOut, 1).0, BackendFailureEvent::Timeout { backend_id: 1 });
    assert_eq!(on_connect_failed(&mut t, 1, ConnectFailure::Other, 1).0, BackendFailureEvent::BackendClosed { backend_id: 1 });
    assert_eq!(t.get(1).unwrap().active_connections(), 0);
}

#[test]
fn rebinding_only_on_a_new_address() {
    assert_eq!(
        rebind_target(&ConfigEvent::ListenAddressChanged("127.0.0.1:9000".to_string()), "127.0.0.1:3000"),
        Some("127.0.0.1:9000".to_string())
    );
    assert_eq!(rebind_target(&ConfigEvent::ListenAddressChanged("127.0.0.1:3000".to_string()), "127.0.0.1:3000"), None);
    assert_eq!(rebind_target(&ConfigEvent::Migrated, "127.0.0.1:3000"), None);
}
