//! The interface every backend selection strategy offers.
use vstd::prelude::*;
use crate::strategy::error::StrategyError;
use crate::strategy::models::Strategy;
use crate::types::{Backend, BackendMeta};

verus! {

/// Strategy service trait.
///
/// `pick_backend` is handed the currently alive backends, in routing-table
/// order, and returns the metadata of the backend that should serve the next
/// connection.
pub trait StrategyService {
    /// Get the strategy
    fn strategy(&self) -> Strategy;

    /// Pick a backend, returns the selected backend metadata
    fn pick_backend(&mut self, healthy: &[Backend]) -> Result<BackendMeta, StrategyError>;
}

} // verus!
