//! A configuration-driven generator of mock services for a durable-execution
//! host: handlers are sequences of steps, assembled from declarative
//! configuration and run against a per-invocation scratch space.

pub mod assembly;
pub mod config;
pub mod json;
pub mod mock;
pub mod number;
pub mod table;
pub mod text;
