//! Verified core of a sensor-observation service: reading validation,
//! a bounded FIFO observation window with filtered queries, and a
//! broadcast hub that fans accepted observations out to subscribers.

pub mod errors;
pub mod fhir;
pub mod ingest;
pub mod models;
pub mod store;
pub mod text;
pub mod ws;
