//! Backend health: events and the decisions of the health monitor.
pub mod models;
pub mod monitor;
