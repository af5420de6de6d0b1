//! Metrics models module
use vstd::prelude::*;
use crate::types::BackendId;

verus! {

/// Metrics config struct
#[derive(Debug, Clone, Copy, PartialEq, Eq, Structural)]
pub struct MetricsConfig {
    /// Metrics collection interval, in milliseconds
    pub interval_ms: u64,
    /// Metrics collection timeout, in milliseconds
    pub timeout_ms: u64,
}

/// Metrics error class enum
#[derive(Debug, Clone, Copy, PartialEq, Eq, Structural)]
pub enum MetricsErrorClass {
    /// Timeout
    Timeout,
    /// Connection refused
    ConnectionRefused,
    /// Backend closed
    BackendClosed,
    /// Protocol
    Protocol,
    /// Unknown
    Unknown,
}

/// Metrics event enum
#[derive(Debug, Clone, Copy, PartialEq, Eq, Structural)]
pub enum MetricsEvent {
    /// A new connection was accepted for a backend
    ConnectionOpened {
        /// Backend ID
        backend_id: BackendId,
        /// Timestamp
        at_micros: u64,
    },
    /// A connection was closed (normal or error)
    ConnectionClosed {
        /// Backend ID
        backend_id: BackendId,
        /// Duration in microseconds
        duration_micros: u64,
        /// Bytes in
        bytes_in: u64,
        /// Bytes out
        bytes_out: u64,
    },
    /// A proxied request finished
    RequestCompleted {
        /// Backend ID
        backend_id: BackendId,
        /// Latency in microseconds
        latency_micros: u64,
        /// Status code
        status_code: u16,
    },
    /// A proxied request failed
    RequestFailed {
        /// Backend ID
        backend_id: BackendId,
        /// Latency in microseconds
        latency_micros: u64,
        /// Error class
        error_class: MetricsErrorClass,
    },
    /// Periodic snapshot trigger (internal tick)
    FlushSnapshot,
}

} // verus!
