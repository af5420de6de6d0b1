//! Backend selection strategies.
pub mod adapters;
pub mod builder;
pub mod error;
pub mod laws;
pub mod models;
pub mod port;
