//! Error module for the load balancer
use vstd::prelude::*;

verus! {

/// Error types that can occur in the load balancer
#[derive(Debug, Clone, PartialEq, Eq)]
pub enum Error {
    /// Network I/O error (its message)
    Io(String),
    /// Configuration error
    Config(String),
    /// Backend selection error (e.g., no healthy backends available)
    BackendSelection(String),
    /// Connection timeout
    Timeout(String),
    /// Health check error
    HealthCheck(String),
    /// Metrics error
    Metrics(String),
    /// Backend ID is required but was not provided
    MissingBackendId,
    /// Backend address is required but was not provided
    MissingBackendAddress,
    /// Environment variable not found
    MissingEnvVar(String),
    /// Environment variable has invalid format
    InvalidEnvVarFormat(String),
    /// Invalid load balancing algorithm
    InvalidStrategy(String),
}

} // verus!
