//! Error module
use vstd::prelude::*;
use crate::config::error::ConfigError;
use crate::metrics::error::MetricsError;
use crate::proxy::error::ProxyError;
use crate::strategy::error::StrategyError;

verus! {

/// Enum representing possible errors in the Lemonade load balancer.
#[derive(Debug, Clone, PartialEq, Eq)]
pub enum Error {
    /// Config error
    Config(ConfigError),
    /// Metrics error
    Metrics(MetricsError),
    /// Proxy error
    Proxy(ProxyError),
    /// Strategy error
    Strategy(StrategyError),
}

} // verus!
