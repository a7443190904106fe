//! Benchmark-dispatch coordinator: job lifecycle, ingestion decisions and
//! the worker-facing operations, with their contracts.

pub mod github;
pub mod ingest;
pub mod lifecycle;
pub mod model;
pub mod store;
pub mod time;
