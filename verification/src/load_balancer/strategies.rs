//! Strategy kinds of the first-generation load balancer.
use vstd::prelude::*;
use crate::text::str_equals;

verus! {

/// Name of the adaptive strategy.
pub const STRATEGY_ADAPTIVE: &'static str = "adaptive";
/// Name of the round robin strategy.
pub const STRATEGY_ROUND_ROBIN: &'static str = "round-robin";
/// Name of the least connections strategy.
pub const STRATEGY_LEAST_CONNECTIONS: &'static str = "least-connections";
/// Name of the weighted round robin strategy.
pub const STRATEGY_WEIGHTED_ROUND_ROBIN: &'static str = "weighted-round-robin";

/// Strategy error type
#[derive(Debug, Clone, PartialEq, Eq)]
pub enum StrategyError {
    /// Invalid strategy type
    InvalidStrategyType(String),
}

/// Load balancing Strategy module
#[derive(Debug, Clone, Copy, PartialEq, Eq, Structural)]
pub enum StrategyType {
    /// Adaptive: Distributes connections using any of the other strategies for better performance.
    Adaptive,
    /// Round-robin: Distributes connections evenly by cycling through healthy backends in order.
    RoundRobin,
    /// Least connections: Routes to the backend with the fewest active connections.
    LeastConnections,
    /// Weighted round-robin: Distributes connections proportionally based on backend weights.
    WeightedRoundRobin,
}

/// The textual name of each strategy type.
pub open spec fn strategy_type_name(t: StrategyType) -> Seq<char> {
    match t {
        StrategyType::Adaptive => STRATEGY_ADAPTIVE@,
        StrategyType::RoundRobin => STRATEGY_ROUND_ROBIN@,
        StrategyType::LeastConnections => STRATEGY_LEAST_CONNECTIONS@,
        StrategyType::WeightedRoundRobin => STRATEGY_WEIGHTED_ROUND_ROBIN@,
    }
}

/// The strategy type a name denotes, if any.
pub open spec fn parse_strategy_type(s: Seq<char>) -> Option<StrategyType> {
    if s == STRATEGY_ROUND_ROBIN@ {
        Some(StrategyType::RoundRobin)
    } else if s == STRATEGY_LEAST_CONNECTIONS@ {
        Some(StrategyType::LeastConnections)
    } else if s == STRATEGY_WEIGHTED_ROUND_ROBIN@ {
        Some(StrategyType::WeightedRoundRobin)
    } else if s == STRATEGY_ADAPTIVE@ {
        Some(StrategyType::Adaptive)
    } else {
        None
    }
}

impl StrategyType {
    /// Parses a strategy type name.
    pub fn from_str(s: &str) -> (r: Result<StrategyType, StrategyError>)
        ensures
            match parse_strategy_type(s@) {
                Some(t) => r == Ok::<StrategyType, StrategyError>(t),
                None => r matches Err(StrategyError::InvalidStrategyType(t)) && t@ == s@,
            },
    {
        if str_equals(s, STRATEGY_ROUND_ROBIN) {
            Ok(StrategyType::RoundRobin)
        } else if str_equals(s, STRATEGY_LEAST_CONNECTIONS) {
            Ok(StrategyType::LeastConnections)
        } else if str_equals(s, STRATEGY_WEIGHTED_ROUND_ROBIN) {
            Ok(StrategyType::WeightedRoundRobin)
        } else if str_equals(s, STRATEGY_ADAPTIVE) {
            Ok(StrategyType::Adaptive)
        } else {
            Err(StrategyError::InvalidStrategyType(String::from_str(s)))
        }
    }

    /// The strategy type's name.
    pub fn as_ref(&self) -> (r: &'static str)
        ensures
            r@ == strategy_type_name(*self),
    {
        match self {
            StrategyType::Adaptive => STRATEGY_ADAPTIVE,
            StrategyType::RoundRobin => STRATEGY_ROUND_ROBIN,
            StrategyType::LeastConnections => STRATEGY_LEAST_CONNECTIONS,
            StrategyType::WeightedRoundRobin => STRATEGY_WEIGHTED_ROUND_ROBIN,
        }
    }
}

/// Every strategy type's name parses back to it, and a name that parses is
/// the name of the type it parses to.
pub proof fn lemma_strategy_type_round_trip(t: StrategyType, text: Seq<char>)
    ensures
        parse_strategy_type(strategy_type_name(t)) == Some(t),
        parse_strategy_type(text) matches Some(u) ==> strategy_type_name(u) == text,
{
    reveal_strlit("adaptive");
    reveal_strlit("round-robin");
    reveal_strlit("least-connections");
    reveal_strlit("weighted-round-robin");
    assert(STRATEGY_ADAPTIVE@.len() == 8);
    assert(STRATEGY_ROUND_ROBIN@.len() == 11);
    assert(STRATEGY_LEAST_CONNECTIONS@.len() == 17);
    assert(STRATEGY_WEIGHTED_ROUND_ROBIN@.len() == 20);
}

/// Strategy Trait
pub trait Strategy {
    /// Strategy type
    fn strategy_type(&self) -> StrategyType;
}

/// Adaptive Strategy selection implementation
pub struct AdaptiveStrategy;

/// Least Connections Strategy selection implementation
pub struct LeastConnectionsStrategy;

/// Round Robin Strategy selection implementation
pub struct RoundRobinStrategy;

/// Weighted Round Robin Strategy selection implementation
pub struct WeightedRoundRobinStrategy;

impl Strategy for AdaptiveStrategy {
    fn strategy_type(&self) -> (r: StrategyType)
        ensures
            r == StrategyType::Adaptive,
    {
        StrategyType::Adaptive
    }
}

impl Strategy for LeastConnectionsStrategy {
    fn strategy_type(&self) -> (r: StrategyType)
        ensures
            r == StrategyType::LeastConnections,
    {
        StrategyType::LeastConnections
    }
}

impl Strategy for RoundRobinStrategy {
    fn strategy_type(&self) -> (r: StrategyType)
        ensures
            r == StrategyType::RoundRobin,
    {
        StrategyType::RoundRobin
    }
}

impl Strategy for WeightedRoundRobinStrategy {
    fn strategy_type(&self) -> (r: StrategyType)
        ensures
            r == StrategyType::WeightedRoundRobin,
    {
        StrategyType::WeightedRoundRobin
    }
}

} // verus!
