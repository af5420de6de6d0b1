//! Lemonade: a TCP load balancer whose backend selection strategies,
//! configuration parsing, health tracking, metrics aggregation and proxy
//! admission decisions are verified with Verus.
//!
//! - [`types`] and [`routing`]: backends and the routing table of their state
//! - [`strategy`]: round robin, weighted round robin, least connections,
//!   fastest response time, the adaptive score cache, and the builder
//! - [`config`]: configuration models, loading from the environment and files
//! - [`health`], [`metrics`], [`proxy`]: the decisions of the runtime services
//! - [`load_balancer`]: algorithm names and strategy kinds of the first-generation balancer
//! - [`workers`], [`bench`]: response bodies of the HTTP workers, benchmark URLs
pub mod bench;
pub mod config;
pub mod error;
pub mod health;
pub mod load_balancer;
pub mod metrics;
pub mod numbers;
pub mod proxy;
pub mod routing;
pub mod strategy;
pub mod text;
pub mod types;
pub mod workers;
