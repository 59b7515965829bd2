//! Relatum: weekly training reports written by trainees and signed off by the
//! signers of their department.
//!
//! The library holds the domain model (users, departments, ISO weeks, signatures
//! and the report review workflow), the decisions the services take between their
//! storage round-trips, the HTTP error mapping and wire shapes, the command-line
//! renderings, and the markdown pass that feeds the PDF export.

pub mod models;
pub mod errors;
pub mod textual;
pub mod ports;
pub mod services;
pub mod api;
pub mod cli;
pub mod client;
pub mod export;
