use lemonade::load_balancer::strategies::{
    AdaptiveStrategy, LeastConnectionsStrategy, RoundRobinStrategy, Strategy, StrategyError,
    StrategyType, WeightedRoundRobinStrategy, STRATEGY_ADAPTIVE, STRATEGY_LEAST_CONNECTIONS,
    STRATEGY_ROUND_ROBIN, STRATEGY_WEIGHTED_ROUND_ROBIN,
};

#[test]
fn test_strategy_adaptive() {
    assert_eq!(StrategyType::from_str(STRATEGY_ADAPTIVE).unwrap(), StrategyType::Adaptive);
}

#[test]
fn test_strategy_round_robin() {
    assert_eq!(StrategyType::from_str(STRATEGY_ROUND_ROBIN).unwrap(), StrategyType::RoundRobin);
}

#[test]
fn test_strategy_least_connections() {
    assert_eq!(
        StrategyType::from_str(STRATEGY_LEAST_CONNECTIONS).unwrap(),
        StrategyType::LeastConnections
    );
}

#[test]
fn test_strategy_weighted_round_robin() {
    assert_eq!(
        StrategyType::from_str(STRATEGY_WEIGHTED_ROUND_ROBIN).unwrap(),
        StrategyType::WeightedRoundRobin
    );
}

#[test]
fn test_strategy_invalid() {
    assert!(StrategyType::from_str("invalid").is_err());
}

#[test]
fn strategy_type_invalid_carries_input() {
    assert_eq!(
        StrategyType::from_str("invalid"),
        Err(StrategyError::InvalidStrategyType("invalid".to_string()))
    );
}

#[test]
fn strategy_type_name_round_trip() {
    for t in [
        StrategyType::Adaptive,
        StrategyType::RoundRobin,
        StrategyType::LeastConnections,
        StrategyType::WeightedRoundRobin,
    ] {
        assert_eq!(StrategyType::from_str(t.as_ref()).unwrap(), t);
    }
}

#[test]
fn strategy_implementations_report_their_type() {
    assert_eq!(AdaptiveStrategy.strategy_type(), StrategyType::Adaptive);
    assert_eq!(RoundRobinStrategy.strategy_type(), StrategyType::RoundRobin);
    assert_eq!(LeastConnectionsStrategy.strategy_type(), StrategyType::LeastConnections);
    assert_eq!(WeightedRoundRobinStrategy.strategy_type(), StrategyType::WeightedRoundRobin);
}
