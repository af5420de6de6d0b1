//! The proxy's admission and connection bookkeeping decisions.
pub mod admission;
pub mod error;
pub mod models;
