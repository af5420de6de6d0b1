//! The first-generation load balancer: algorithm names, backend records and
//! strategy kinds.
pub mod algorithms;
pub mod backend;
pub mod error;
pub mod strategies;
