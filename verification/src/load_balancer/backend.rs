//! Backend module: backend server records.
use vstd::prelude::*;

verus! {

/// Backend Id type
pub type BackendId = u8;

/// Represents a backend server that can receive proxied connections.
pub struct Backend {
    /// Typed identifier for efficient HashMap lookups.
    pub id: BackendId,
    /// Human-readable name for logging and display purposes.
    pub name: String,
    /// Network address in the format "host:port" (e.g., "127.0.0.1:8081").
    pub addr: String,
    /// Weight used for weighted round-robin algorithm. Higher weights receive more connections.
    pub weight: u8,
    /// Whether this backend is currently healthy and can accept connections.
    pub healthy: bool,
    /// Current number of active connections to this backend.
    pub connection_count: u64,
    /// Average response time measured during health checks, in milliseconds.
    pub avg_response_time_ms: u64,
    /// Total connection duration for calculating average, in milliseconds.
    pub total_connection_duration: u64,
    /// Total number of connections completed.
    pub total_connections: u64,
    /// Number of connection errors for this backend.
    pub error_count: u64,
    /// Timestamp of last connection failure (if any), in milliseconds.
    pub last_connection_failure_ms: Option<u64>,
    /// Timestamp of last health check, in milliseconds.
    pub last_health_check_ms: Option<u64>,
}

} // verus!
