//! A dynamic-DNS client core: change detection on the caller's external IP
//! address, rendering and parsing of registrar update requests, and the
//! decisions that drive one reconciliation cycle.
pub mod error;
pub mod json;
pub mod template;
pub mod batch;
pub mod config;
pub mod transport;
pub mod cycle;
