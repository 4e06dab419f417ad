//! Query construction, response decoding and report rendering for an
//! exception-telemetry backend.

pub mod client;
pub mod config;
pub mod models;
pub mod query;
pub mod report;
pub mod text;
