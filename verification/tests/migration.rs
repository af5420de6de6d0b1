use lemonade::config::models::{migration_events, ConfigEvent};
use lemonade::routing::RouteTable;
use lemonade::types::{BackendConfig, BackendMeta};

fn config(id: u8, address: &str) -> BackendConfig {
    BackendConfig::from(BackendMeta::new(id, None, address.to_string(), None))
}

#[test]
fn migration_keeps_state_and_drains_dropped_backends() {
    let mut t = RouteTable::from_configs(&vec![config(0, "10.0.0.1:80"), config(1, "10.0.0.2:80"), config(2, "10.0.0.3:80")]);
    t.increment_connection(0);
    t.increment_connection(1);
    t.increment_connection(1);
    t.set_health(0, false, 5);
    t.record_request(0, 40, false);
    let m = t.migrate(&vec![config(0, "10.0.0.9:80"), config(5, "10.0.0.5:80")]);
    let ids: Vec<u8> = m.backends.iter().map(|b| b.id()).collect();
    assert_eq!(ids, vec![0, 5, 1]);
    // kept backend: new address, old state
    assert_eq!(m.backends[0].meta.address, "10.0.0.9:80");
    assert_eq!(m.backends[0].active_connections, 1);
    assert!(!m.backends[0].alive);
    assert_eq!(m.backends[0].request_count, 1);
    assert!(!m.backends[0].draining);
    // new backend: fresh
    assert_eq!(m.backends[1].active_connections, 0);
    assert!(m.backends[1].alive);
    // dropped with open connections: draining; dropped idle backend 2: gone
    assert!(m.backends[2].draining);
    assert_eq!(m.backends[2].active_connections, 2);
    assert_eq!(m.total_active_connections(), 3);
    let healthy: Vec<u8> = m.healthy_backends().iter().map(|b| b.id()).collect();
    assert_eq!(healthy, vec![5]);
}

#[test]
fn drained_backends_leave_the_table() {
    let mut t = RouteTable::from_configs(&vec![config(0, "10.0.0.1:80"), config(1, "10.0.0.2:80")]);
    t.increment_connection(1);
    let mut m = t.migrate(&vec![config(0, "10.0.0.1:80")]);
    assert_eq!(m.len(), 2);
    m.prune_drained();
    assert_eq!(m.len(), 2);
    m.decrement_connection(1);
    m.prune_drained();
    assert_eq!(m.len(), 1);
    assert_eq!(m.backends[0].id(), 0);
    // a drained backend that comes back is served again
    let mut t = RouteTable::from_configs(&vec![config(0, "10.0.0.1:80"), config(1, "10.0.0.2:80")]);
    t.increment_connection(1);
    let back = t.migrate(&vec![config(0, "10.0.0.1:80")]).migrate(&vec![config(1, "10.0.0.2:80")]);
    assert_eq!(back.len(), 1);
    assert!(!back.backends[0].draining);
    assert_eq!(back.backends[0].active_connections, 1);
}

#[test]
fn migration_events_announce_a_new_address() {
    assert_eq!(migration_events("127.0.0.1:3000", "127.0.0.1:3000"), vec![ConfigEvent::Migrated]);
    assert_eq!(
        migration_events("127.0.0.1:3000", "0.0.0.0:4000"),
        vec![ConfigEvent::Migrated, ConfigEvent::ListenAddressChanged("0.0.0.0:4000".to_string())]
    );
}
