//! Health models module
use vstd::prelude::*;
use crate::types::BackendId;

verus! {

/// Health config struct
#[derive(Debug, Clone, Copy, PartialEq, Eq, Structural)]
pub struct HealthConfig {
    /// Health check interval, in milliseconds
    pub interval_ms: u64,
    /// Health check timeout, in milliseconds
    pub timeout_ms: u64,
}

/// Health failure reason enum
#[derive(Debug, Clone, Copy, PartialEq, Eq, Structural)]
pub enum HealthFailureReason {
    /// Timeout
    Timeout,
    /// Connection refused
    ConnectionRefused,
    /// Invalid response
    InvalidResponse,
    /// DNS error
    DnsError,
    /// Transport error
    Transport,
}

/// Health status enum
#[derive(Debug, Clone, Copy, PartialEq, Eq, Structural)]
pub enum HealthStatus {
    /// Healthy
    Healthy,
    /// Unhealthy
    Unhealthy,
}

/// Health event struct
#[derive(Debug, Clone, Copy, PartialEq, Eq, Structural)]
pub enum HealthEvent {
    /// Explicit backend check triggered by timer or config reload
    CheckBackend {
        /// Backend ID
        backend_id: BackendId,
    },
    /// Health probe succeeded
    BackendHealthy {
        /// Backend ID
        backend_id: BackendId,
        /// Round trip time in microseconds
        rtt_micros: u64,
    },
    /// Health probe failed
    BackendUnhealthy {
        /// Backend ID
        backend_id: BackendId,
        /// Reason
        reason: HealthFailureReason,
    },
    /// Health state changed (edge-triggered)
    HealthTransition {
        /// Backend ID
        backend_id: BackendId,
        /// From health status
        from: HealthStatus,
        /// To health status
        to: HealthStatus,
    },
    /// Config reload changed backend parameters
    BackendConfigUpdated {
        /// Backend ID
        backend_id: BackendId,
    },
}

/// Backend failure events from proxy to health service
///
/// These events are sent by the proxy service when it encounters errors
/// while attempting to forward requests to backends. The health service
/// uses these events for immediate failure detection without waiting for
/// the next periodic health check.
#[derive(Debug, Clone, Copy, PartialEq, Eq, Structural)]
pub enum BackendFailureEvent {
    /// Proxy detected connection refused
    ConnectionRefused {
        /// Backend identifier
        backend_id: BackendId,
    },
    /// Proxy detected timeout
    Timeout {
        /// Backend identifier
        backend_id: BackendId,
    },
    /// Proxy detected backend closed connection
    BackendClosed {
        /// Backend identifier
        backend_id: BackendId,
    },
    /// Multiple consecutive errors detected
    ConsecutiveErrors {
        /// Backend identifier
        backend_id: BackendId,
        /// Number of consecutive errors
        count: u32,
    },
}

} // verus!
