//! Proxy Error module
use vstd::prelude::*;

verus! {

/// Proxy error enum
#[derive(Debug, Clone, PartialEq, Eq)]
pub enum ProxyError {
    /// I/O error on a TCP stream (its message)
    Io(String),
    /// Unexpected error
    Unexpected(String),
}

} // verus!
