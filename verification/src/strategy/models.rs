//! Strategy names and their textual form.
use vstd::prelude::*;
use crate::strategy::error::StrategyError;
use crate::text::str_equals;

verus! {

/// Name of the adaptive strategy.
pub const STRATEGY_ADAPTIVE: &'static str = "adaptive";
/// Name of the fastest response time strategy.
pub const STRATEGY_FASTEST_RESPONSE_TIME: &'static str = "fastest_response_time";
/// Name of the least connections strategy.
pub const STRATEGY_LEAST_CONNECTIONS: &'static str = "least_connections";
/// Name of the round robin strategy.
pub const STRATEGY_ROUND_ROBIN: &'static str = "round_robin";
/// Name of the weighted round robin strategy.
pub const STRATEGY_WEIGHTED_ROUND_ROBIN: &'static str = "weighted_round_robin";

/// Strategy enum
#[derive(Debug, Clone, Copy, PartialEq, Eq, Hash, Structural)]
pub enum Strategy {
    /// Adaptive strategy
    Adaptive,
    /// Fastest response time strategy
    FastestResponseTime,
    /// Least connections strategy
    LeastConnections,
    /// Round robin strategy
    RoundRobin,
    /// Weighted round robin strategy
    WeightedRoundRobin,
}

/// The textual name of each strategy.
pub open spec fn strategy_name(s: Strategy) -> Seq<char> {
    match s {
        Strategy::Adaptive => STRATEGY_ADAPTIVE@,
        Strategy::FastestResponseTime => STRATEGY_FASTEST_RESPONSE_TIME@,
        Strategy::LeastConnections => STRATEGY_LEAST_CONNECTIONS@,
        Strategy::RoundRobin => STRATEGY_ROUND_ROBIN@,
        Strategy::WeightedRoundRobin => STRATEGY_WEIGHTED_ROUND_ROBIN@,
    }
}

/// The strategy a name denotes, if any.
pub open spec fn parse_strategy(s: Seq<char>) -> Option<Strategy> {
    if s == STRATEGY_ADAPTIVE@ {
        Some(Strategy::Adaptive)
    } else if s == STRATEGY_FASTEST_RESPONSE_TIME@ {
        Some(Strategy::FastestResponseTime)
    } else if s == STRATEGY_LEAST_CONNECTIONS@ {
        Some(Strategy::LeastConnections)
    } else if s == STRATEGY_ROUND_ROBIN@ {
        Some(Strategy::RoundRobin)
    } else if s == STRATEGY_WEIGHTED_ROUND_ROBIN@ {
        Some(Strategy::WeightedRoundRobin)
    } else {
        None
    }
}

impl Strategy {
    /// The strategy's name.
    pub fn as_ref(&self) -> (r: &'static str)
        ensures
            r@ == strategy_name(*self),
    {
        match self {
            Strategy::Adaptive => STRATEGY_ADAPTIVE,
            Strategy::FastestResponseTime => STRATEGY_FASTEST_RESPONSE_TIME,
            Strategy::LeastConnections => STRATEGY_LEAST_CONNECTIONS,
            Strategy::RoundRobin => STRATEGY_ROUND_ROBIN,
            Strategy::WeightedRoundRobin => STRATEGY_WEIGHTED_ROUND_ROBIN,
        }
    }

    /// Parses a strategy name; an unknown name is `NotFound` carrying the input.
    pub fn from_str(s: &str) -> (r: Result<Strategy, StrategyError>)
        ensures
            match parse_strategy(s@) {
                Some(st) => r == Ok::<Strategy, StrategyError>(st),
                None => r matches Err(StrategyError::NotFound(t)) && t@ == s@,
            },
    {
        if str_equals(s, STRATEGY_ADAPTIVE) {
            Ok(Strategy::Adaptive)
        } else if str_equals(s, STRATEGY_FASTEST_RESPONSE_TIME) {
            Ok(Strategy::FastestResponseTime)
        } else if str_equals(s, STRATEGY_LEAST_CONNECTIONS) {
            Ok(Strategy::LeastConnections)
        } else if str_equals(s, STRATEGY_ROUND_ROBIN) {
            Ok(Strategy::RoundRobin)
        } else if str_equals(s, STRATEGY_WEIGHTED_ROUND_ROBIN) {
            Ok(Strategy::WeightedRoundRobin)
        } else {
            Err(StrategyError::NotFound(String::from_str(s)))
        }
    }
}

/// Every strategy's name parses back to that strategy, and a name that parses
/// is exactly the name of the strategy it parses to.
pub proof fn lemma_strategy_name_round_trip(s: Strategy, text: Seq<char>)
    ensures
        parse_strategy(strategy_name(s)) == Some(s),
        parse_strategy(text) matches Some(t) ==> strategy_name(t) == text,
{
    reveal_strlit("adaptive");
    reveal_strlit("fastest_response_time");
    reveal_strlit("least_connections");
    reveal_strlit("round_robin");
    reveal_strlit("weighted_round_robin");
    assert(STRATEGY_ADAPTIVE@ == "adaptive"@);
    assert(STRATEGY_FASTEST_RESPONSE_TIME@.len() == 21);
    assert(STRATEGY_LEAST_CONNECTIONS@.len() == 17);
    assert(STRATEGY_ROUND_ROBIN@.len() == 11);
    assert(STRATEGY_WEIGHTED_ROUND_ROBIN@.len() == 20);
    assert(STRATEGY_ADAPTIVE@.len() == 8);
}

} // verus!
