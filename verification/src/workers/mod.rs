//! Response bodies of the HTTP workers behind the load balancer.
pub mod actix;
pub mod axum;
