//! Configuration: models, loading from environment values and files, and the
//! decisions of the file watcher.
pub mod builder;
pub mod duration;
pub mod error;
pub mod impls;
pub mod models;
