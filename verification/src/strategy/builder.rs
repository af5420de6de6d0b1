//! Strategy builder.
use vstd::prelude::*;
use crate::strategy::adapters::fastest_response_time::FastestResponseTimeStrategy;
use crate::strategy::adapters::least_connections::LeastConnectionsStrategy;
use crate::strategy::adapters::round_robin::RoundRobinStrategy;
use crate::strategy::adapters::weighted_round_robin::WeightedRoundRobinStrategy;
use crate::strategy::error::StrategyError;
use crate::strategy::models::Strategy;
use crate::strategy::port::StrategyService;
use crate::types::BackendMeta;

verus! {

/// A strategy produced by [`StrategyBuilder::build`].
///
/// The adaptive strategy scores backends with floating-point arithmetic and is
/// instantiated by the embedding application; the variant marks that choice.
pub enum BuiltStrategy {
    /// Adaptive multi-factor scoring
    Adaptive,
    /// Fastest response time
    FastestResponseTime(FastestResponseTimeStrategy),
    /// Least connections
    LeastConnections(LeastConnectionsStrategy),
    /// Round robin
    RoundRobin(RoundRobinStrategy),
    /// Weighted round robin
    WeightedRoundRobin(WeightedRoundRobinStrategy),
}

impl BuiltStrategy {
    /// Which strategy was built.
    pub open spec fn kind(self) -> Strategy {
        match self {
            BuiltStrategy::Adaptive => Strategy::Adaptive,
            BuiltStrategy::FastestResponseTime(_) => Strategy::FastestResponseTime,
            BuiltStrategy::LeastConnections(_) => Strategy::LeastConnections,
            BuiltStrategy::RoundRobin(_) => Strategy::RoundRobin,
            BuiltStrategy::WeightedRoundRobin(_) => Strategy::WeightedRoundRobin,
        }
    }

    /// Get the strategy
    pub fn strategy(&self) -> (r: Strategy)
        ensures
            r == self.kind(),
    {
        match self {
            BuiltStrategy::Adaptive => Strategy::Adaptive,
            BuiltStrategy::FastestResponseTime(s) => s.strategy(),
            BuiltStrategy::LeastConnections(s) => s.strategy(),
            BuiltStrategy::RoundRobin(s) => s.strategy(),
            BuiltStrategy::WeightedRoundRobin(s) => s.strategy(),
        }
    }
}

/// Strategy builder struct
pub struct StrategyBuilder {
    strategy: Option<Strategy>,
    backends: Vec<BackendMeta>,
}

impl StrategyBuilder {
    /// The strategy chosen so far.
    pub closed spec fn chosen(&self) -> Option<Strategy> {
        self.strategy
    }

    /// The backends handed to the builder.
    pub closed spec fn backend_list(&self) -> Seq<BackendMeta> {
        self.backends@
    }

    /// Create a new strategy builder
    pub fn new() -> (r: Self)
        ensures
            r.chosen() is None,
            r.backend_list() == Seq::<BackendMeta>::empty(),
    {
        StrategyBuilder { strategy: None, backends: Vec::new() }
    }

    /// Set the strategy
    pub fn with_strategy(self, strategy: Strategy) -> (r: Self)
        ensures
            r.chosen() == Some(strategy),
            r.backend_list() == self.backend_list(),
    {
        StrategyBuilder { strategy: Some(strategy), backends: self.backends }
    }

    /// Set the backends
    pub fn with_backends(self, backends: Vec<BackendMeta>) -> (r: Self)
        ensures
            r.chosen() == self.chosen(),
            r.backend_list() == backends@,
    {
        StrategyBuilder { strategy: self.strategy, backends }
    }

    /// Build the strategy; fails with `NotFound("Strategy not found")` when
    /// none was set. The strategy is built in its initial state: the round
    /// robin strategies start at ticket 0.
    pub fn build(self) -> (r: Result<BuiltStrategy, StrategyError>)
        ensures
            match self.chosen() {
                Some(s) => r matches Ok(b) && b.kind() == s,
                None => r matches Err(StrategyError::NotFound(msg)) && msg@ == "Strategy not found"@,
            },
            r matches Ok(BuiltStrategy::RoundRobin(s)) ==> s.ticket() == 0,
            r matches Ok(BuiltStrategy::WeightedRoundRobin(s)) ==> s.ticket() == 0,
    {
        match self.strategy {
            Some(strategy) => match strategy {
                Strategy::Adaptive => Ok(BuiltStrategy::Adaptive),
                Strategy::FastestResponseTime => Ok(
                    BuiltStrategy::FastestResponseTime(FastestResponseTimeStrategy::default()),
                ),
                Strategy::LeastConnections => Ok(
                    BuiltStrategy::LeastConnections(LeastConnectionsStrategy::default()),
                ),
                Strategy::RoundRobin => Ok(BuiltStrategy::RoundRobin(RoundRobinStrategy::default())),
                Strategy::WeightedRoundRobin => Ok(
                    BuiltStrategy::WeightedRoundRobin(WeightedRoundRobinStrategy::default()),
                ),
            },
            None => Err(StrategyError::NotFound(String::from_str("Strategy not found"))),
        }
    }
}

impl Default for StrategyBuilder {
    fn default() -> (r: Self)
        ensures
            r.chosen() is None,
            r.backend_list() == Seq::<BackendMeta>::empty(),
    {
        Self::new()
    }
}

} // verus!
