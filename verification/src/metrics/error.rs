//! Metrics Error module
use vstd::prelude::*;

verus! {

/// Metrics error enum
#[derive(Debug, Clone, PartialEq, Eq)]
pub enum MetricsError {
    /// Internal error
    Internal(String),
}

} // verus!
