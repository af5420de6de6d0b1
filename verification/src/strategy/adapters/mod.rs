//! Strategy implementations.
pub mod adaptive;
pub mod fastest_response_time;
pub mod least_connections;
pub mod round_robin;
pub mod weighted_round_robin;
