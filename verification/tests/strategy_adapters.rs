use lemonade::routing::RouteTable;
use lemonade::strategy::adapters::fastest_response_time::FastestResponseTimeStrategy;
use lemonade::strategy::adapters::least_connections::LeastConnectionsStrategy;
use lemonade::strategy::adapters::round_robin::RoundRobinStrategy;
use lemonade::strategy::adapters::weighted_round_robin::WeightedRoundRobinStrategy;
use lemonade::strategy::adapters::adaptive::adaptive_shortcut;
use lemonade::strategy::error::StrategyError;
use lemonade::strategy::models::Strategy;
use lemonade::strategy::port::StrategyService;
use lemonade::types::BackendMeta;

fn create_test_backend(id: u8) -> BackendMeta {
    BackendMeta::new(
        id,
        Some(format!("backend-{}", id)),
        format!("127.0.0.1:{}", 8080 + id as u16),
        Some(10u8),
    )
}

fn backend_with_weight(id: u8, weight: Option<u8>) -> BackendMeta {
    BackendMeta::new(id, Some(format!("backend-{}", id)), format!("127.0.0.1:{}", 8080 + id as u16), weight)
}

#[test]
fn fastest_response_time_strategy_strategy_should_succeed() {
    let strategy = FastestResponseTimeStrategy::default();
    let strategy_type = strategy.strategy();
    assert!(matches!(strategy_type, Strategy::FastestResponseTime));
}

#[test]
fn fastest_response_time_strategy_pick_backend_with_lowest_latency_should_succeed() {
    let mut strategy = FastestResponseTimeStrategy::default();
    let mut routing = RouteTable::new(vec![
        create_test_backend(0),
        create_test_backend(1),
        create_test_backend(2),
    ]);
    routing.record_request(0, 10, false);
    routing.record_request(0, 10, false);
    routing.record_request(1, 5, false);
    routing.record_request(1, 5, false);
    routing.record_request(2, 20, false);
    routing.record_request(2, 20, false);
    let backend = strategy
        .pick_backend(&routing.healthy_backends())
        .expect("Failed to pick backend");
    assert_eq!(backend.id(), &1u8);
}

#[test]
fn fastest_response_time_strategy_pick_backend_with_no_metrics_should_succeed() {
    let mut strategy = FastestResponseTimeStrategy::default();
    let routing = RouteTable::new(vec![create_test_backend(0), create_test_backend(1)]);
    let backend = strategy
        .pick_backend(&routing.healthy_backends())
        .expect("Failed to pick backend");
    assert_eq!(backend.id(), &0u8);
}

#[test]
fn fastest_response_time_strategy_pick_backend_with_partial_metrics_should_succeed() {
    let mut strategy = FastestResponseTimeStrategy::default();
    let mut routing = RouteTable::new(vec![
        create_test_backend(0),
        create_test_backend(1),
        create_test_backend(2),
    ]);
    routing.record_request(0, 20, false);
    routing.record_request(0, 20, false);
    routing.record_request(1, 10, false);
    routing.record_request(1, 10, false);
    let backend = strategy
        .pick_backend(&routing.healthy_backends())
        .expect("Failed to pick backend");
    assert_eq!(backend.id(), &1u8);
}

#[test]
fn fastest_response_time_strategy_pick_backend_with_empty_healthy_should_fail() {
    let mut strategy = FastestResponseTimeStrategy::default();
    let mut routing = RouteTable::new(vec![create_test_backend(0)]);
    routing.set_health(0, false, 1000);
    let result = strategy.pick_backend(&routing.healthy_backends());
    assert!(result.is_err());
    assert!(matches!(
        result.expect_err("Failed to pick backend"),
        StrategyError::NoBackendAvailable
    ));
}

#[test]
fn fastest_response_time_strategy_pick_backend_with_equal_latencies_should_succeed() {
    let mut strategy = FastestResponseTimeStrategy::default();
    let mut routing = RouteTable::new(vec![create_test_backend(0), create_test_backend(1)]);
    routing.record_request(0, 10, false);
    routing.record_request(0, 10, false);
    routing.record_request(1, 10, false);
    routing.record_request(1, 10, false);
    let backend = strategy
        .pick_backend(&routing.healthy_backends())
        .expect("Failed to pick backend");
    assert!(*backend.id() == 0 || *backend.id() == 1);
}

#[test]
fn fastest_response_time_strategy_default_should_succeed() {
    let strategy = FastestResponseTimeStrategy::default();
    assert!(matches!(strategy.strategy(), Strategy::FastestResponseTime));
}

#[test]
fn fastest_response_time_breaks_ties_by_order_and_compares_exact_averages() {
    let mut strategy = FastestResponseTimeStrategy::default();
    let mut routing = RouteTable::new(vec![create_test_backend(0), create_test_backend(1), create_test_backend(2)]);
    // backend 0: average 10 (10+10); backend 1: average 10 (30 / 3); backend 2: average 9.5 (19 / 2)
    routing.record_request(0, 10, false);
    routing.record_request(0, 10, false);
    routing.record_request(1, 10, false);
    routing.record_request(1, 10, false);
    routing.record_request(1, 10, false);
    let first = strategy.pick_backend(&routing.healthy_backends()).unwrap();
    assert_eq!(*first.id(), 0);
    routing.record_request(2, 9, false);
    routing.record_request(2, 10, false);
    let second = strategy.pick_backend(&routing.healthy_backends()).unwrap();
    assert_eq!(*second.id(), 2);
}

#[test]
fn round_robin_cycles_through_alive_backends() {
    let mut strategy = RoundRobinStrategy::default();
    assert_eq!(strategy.strategy(), Strategy::RoundRobin);
    let mut routing = RouteTable::new(vec![create_test_backend(0), create_test_backend(1), create_test_backend(2)]);
    let healthy = routing.healthy_backends();
    let picks: Vec<u8> = (0..6).map(|_| *strategy.pick_backend(&healthy).unwrap().id()).collect();
    assert_eq!(picks, vec![0, 1, 2, 0, 1, 2]);
    routing.set_health(1, false, 5);
    let healthy = routing.healthy_backends();
    let picks: Vec<u8> = (0..4).map(|_| *strategy.pick_backend(&healthy).unwrap().id()).collect();
    assert_eq!(picks, vec![0, 2, 0, 2]);
}

#[test]
fn round_robin_without_backends_fails() {
    let mut strategy = RoundRobinStrategy::default();
    assert_eq!(strategy.pick_backend(&[]), Err(StrategyError::NoBackendAvailable));
    let routing = RouteTable::new(vec![create_test_backend(7)]);
    // the failed pick did not consume a ticket
    assert_eq!(*strategy.pick_backend(&routing.healthy_backends()).unwrap().id(), 7);
}

#[test]
fn least_connections_picks_first_least_loaded() {
    let mut strategy = LeastConnectionsStrategy::default();
    assert_eq!(strategy.strategy(), Strategy::LeastConnections);
    let mut routing = RouteTable::new(vec![create_test_backend(0), create_test_backend(1), create_test_backend(2)]);
    routing.increment_connection(0);
    routing.increment_connection(0);
    routing.increment_connection(1);
    routing.increment_connection(2);
    let picked = strategy.pick_backend(&routing.healthy_backends()).unwrap();
    assert_eq!(*picked.id(), 1);
    routing.decrement_connection(0);
    routing.decrement_connection(0);
    let picked = strategy.pick_backend(&routing.healthy_backends()).unwrap();
    assert_eq!(*picked.id(), 0);
    assert_eq!(strategy.pick_backend(&[]), Err(StrategyError::NoBackendAvailable));
}

#[test]
fn weighted_round_robin_is_proportional() {
    let mut strategy = WeightedRoundRobinStrategy::default();
    assert_eq!(strategy.strategy(), Strategy::WeightedRoundRobin);
    let routing = RouteTable::new(vec![
        backend_with_weight(0, Some(3)),
        backend_with_weight(1, None),
        backend_with_weight(2, Some(0)),
        backend_with_weight(3, Some(2)),
    ]);
    let healthy = routing.healthy_backends();
    let picks: Vec<u8> = (0..12).map(|_| *strategy.pick_backend(&healthy).unwrap().id()).collect();
    assert_eq!(picks, vec![0, 0, 0, 1, 3, 3, 0, 0, 0, 1, 3, 3]);
}

#[test]
fn weighted_round_robin_with_zero_total_weight_fails() {
    let mut strategy = WeightedRoundRobinStrategy::default();
    let routing = RouteTable::new(vec![backend_with_weight(0, Some(0)), backend_with_weight(1, Some(0))]);
    assert_eq!(
        strategy.pick_backend(&routing.healthy_backends()),
        Err(StrategyError::NoBackendAvailable)
    );
    assert_eq!(strategy.pick_backend(&[]), Err(StrategyError::NoBackendAvailable));
    let routing = RouteTable::new(vec![backend_with_weight(5, Some(1)), backend_with_weight(6, Some(1))]);
    // failed picks did not consume a ticket
    assert_eq!(*strategy.pick_backend(&routing.healthy_backends()).unwrap().id(), 5);
}

#[test]
fn weighted_round_robin_counts_a_whole_cycle_from_any_start() {
    let mut strategy = WeightedRoundRobinStrategy::default();
    let routing = RouteTable::new(vec![
        backend_with_weight(0, Some(3)),
        backend_with_weight(1, None),
        backend_with_weight(2, Some(0)),
        backend_with_weight(3, Some(2)),
    ]);
    let healthy = routing.healthy_backends();
    for _ in 0..4 {
        strategy.pick_backend(&healthy).unwrap();
    }
    let mut counts = [0usize; 4];
    for _ in 0..6 {
        counts[*strategy.pick_backend(&healthy).unwrap().id() as usize] += 1;
    }
    assert_eq!(counts, [3, 1, 0, 2]);
}

#[test]
fn adaptive_shortcut_handles_zero_and_one_backend() {
    let none: Vec<lemonade::types::Backend> = Vec::new();
    assert_eq!(adaptive_shortcut(&none), Some(Err(StrategyError::NoBackendAvailable)));
    let one = RouteTable::new(vec![create_test_backend(7)]).healthy_backends();
    assert_eq!(adaptive_shortcut(&one), Some(Ok(create_test_backend(7))));
    let two = RouteTable::new(vec![create_test_backend(0), create_test_backend(1)]).healthy_backends();
    assert_eq!(adaptive_shortcut(&two), None);
}
