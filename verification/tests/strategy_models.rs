use lemonade::strategy::builder::{BuiltStrategy, StrategyBuilder};
use lemonade::strategy::error::StrategyError;
use lemonade::strategy::models::Strategy;

const ALL: [Strategy; 5] = [
    Strategy::Adaptive,
    Strategy::FastestResponseTime,
    Strategy::LeastConnections,
    Strategy::RoundRobin,
    Strategy::WeightedRoundRobin,
];

#[test]
fn strategy_names_are_snake_case() {
    assert_eq!(Strategy::Adaptive.as_ref(), "adaptive");
    assert_eq!(Strategy::FastestResponseTime.as_ref(), "fastest_response_time");
    assert_eq!(Strategy::LeastConnections.as_ref(), "least_connections");
    assert_eq!(Strategy::RoundRobin.as_ref(), "round_robin");
    assert_eq!(Strategy::WeightedRoundRobin.as_ref(), "weighted_round_robin");
}

#[test]
fn strategy_name_round_trip() {
    for s in ALL {
        assert_eq!(Strategy::from_str(s.as_ref()), Ok(s));
    }
}

#[test]
fn strategy_unknown_name_is_not_found() {
    assert_eq!(
        Strategy::from_str("random"),
        Err(StrategyError::NotFound("random".to_string()))
    );
    assert_eq!(
        StrategyError::NotFound("random".to_string()).message(),
        "strategy not found: random"
    );
    assert_eq!(StrategyError::NoBackendAvailable.message(), "no backend available");
    assert_eq!(
        StrategyError::UnexpectedError("boom".to_string()).message(),
        "unexpected error: boom"
    );
}

#[test]
fn builder_without_strategy_fails() {
    match StrategyBuilder::new().build() {
        Err(StrategyError::NotFound(msg)) => assert_eq!(msg, "Strategy not found"),
        _ => panic!("expected NotFound"),
    }
}

#[test]
fn builder_builds_the_chosen_strategy() {
    for s in ALL {
        let built = StrategyBuilder::new()
            .with_backends(Vec::new())
            .with_strategy(s)
            .build();
        match built {
            Ok(b) => assert_eq!(b.strategy(), s),
            Err(_) => panic!("expected a strategy"),
        }
    }
    let adaptive = StrategyBuilder::default().with_strategy(Strategy::Adaptive).build();
    assert!(matches!(adaptive, Ok(BuiltStrategy::Adaptive)));
}
