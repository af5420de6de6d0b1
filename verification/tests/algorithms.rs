use lemonade::load_balancer::algorithms::Algorithm;
use lemonade::load_balancer::error::Error;

#[test]
fn test_algorithm_adaptive() {
    assert_eq!(Algorithm::try_from(0).unwrap(), Algorithm::Adaptive);
    assert_eq!(u8::from(Algorithm::Adaptive), 0);
    assert_eq!(Algorithm::from_str("adaptive").unwrap(), Algorithm::Adaptive);
}

#[test]
fn test_algorithm_round_robin() {
    assert_eq!(Algorithm::try_from(1).unwrap(), Algorithm::RoundRobin);
    assert_eq!(u8::from(Algorithm::RoundRobin), 1);
    assert_eq!(Algorithm::from_str("round-robin").unwrap(), Algorithm::RoundRobin);
}

#[test]
fn test_algorithm_least_connections() {
    assert_eq!(Algorithm::try_from(2).unwrap(), Algorithm::LeastConnections);
    assert_eq!(u8::from(Algorithm::LeastConnections), 2);
    assert_eq!(Algorithm::from_str("least-connections").unwrap(), Algorithm::LeastConnections);
}

#[test]
fn test_algorithm_weighted_round_robin() {
    assert_eq!(Algorithm::try_from(3).unwrap(), Algorithm::WeightedRoundRobin);
    assert_eq!(u8::from(Algorithm::WeightedRoundRobin), 3);
    assert_eq!(
        Algorithm::from_str("weighted-round-robin").unwrap(),
        Algorithm::WeightedRoundRobin
    );
}

#[test]
fn test_algorithm_invalid() {
    assert!(Algorithm::try_from(4).is_err());
    assert!(Algorithm::from_str("invalid").is_err());
}

#[test]
fn algorithm_invalid_code_reports_the_number() {
    assert_eq!(
        Algorithm::try_from(4),
        Err(Error::InvalidStrategy("Numeric value: 4".to_string()))
    );
    assert_eq!(
        Algorithm::try_from(255),
        Err(Error::InvalidStrategy("Numeric value: 255".to_string()))
    );
    assert_eq!(
        Algorithm::try_from(42),
        Err(Error::InvalidStrategy("Numeric value: 42".to_string()))
    );
}

#[test]
fn algorithm_invalid_name_is_reported() {
    assert_eq!(
        Algorithm::from_str("Round-Robin"),
        Err(Error::InvalidStrategy("Round-Robin".to_string()))
    );
}

#[test]
fn algorithm_code_round_trip() {
    for code in 0u8..=255 {
        match Algorithm::try_from(code) {
            Ok(a) => assert_eq!(u8::from(a), code),
            Err(_) => assert!(code > 3),
        }
    }
}
