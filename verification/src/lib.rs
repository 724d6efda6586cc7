//! Core of a telemetry ingestion service for air-quality sensors.
//!
//! Devices submit readings guarded by a shared key, the readings are kept in
//! a single table, and viewers fetch the most recent ones. This crate holds
//! the decisions of that service and a model of its table; transport and
//! database drivers live with the caller.

pub mod auth;
pub mod backend;
pub mod guarantees;
pub mod ingest;
pub mod query;
pub mod reading;
pub mod response;
pub mod service;
pub mod store;
