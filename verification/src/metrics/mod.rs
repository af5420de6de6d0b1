//! Request metrics: events and their aggregation into backend state.
pub mod aggregate;
pub mod error;
pub mod models;
