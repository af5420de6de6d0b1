//! Proxy models module
use vstd::prelude::*;
use crate::types::BackendId;

verus! {

/// Proxy config struct
#[derive(Debug)]
pub struct ProxyConfig {
    /// Listen address, `host:port`, in the canonical rendering of a socket address
    pub listen_address: String,
    /// Max connections
    pub max_connections: Option<u64>,
}

/// Connection lifecycle events
#[derive(Debug, Clone, Copy, PartialEq, Eq, Structural)]
pub enum ConnectionEvent {
    /// A connection to a backend was successfully opened
    Opened {
        /// Backend identifier
        backend_id: BackendId,
    },
    /// A connection to a backend was closed
    Closed {
        /// Backend identifier
        backend_id: BackendId,
    },
}

} // verus!
