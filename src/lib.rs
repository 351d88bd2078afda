//! A columnar storage writer: typed batches become row groups of a parquet
//! container, sealed and rotated by a storage engine that picks one of two
//! commit strategies.
pub mod batch;
pub mod config;
pub mod engine;
pub mod error;
pub mod schema;
pub mod strategy;
