//! The use-cases the domain offers: the services' state and the decisions they
//! take between storage round-trips.
//!
//! Each service is a struct holding the backends it works through. Reading and
//! writing those backends is asynchronous and happens in the application; every
//! decision taken on what was read — authorization, validation, which record to
//! write next — is a function here, with its contract.

pub mod admin;
pub mod auth;
pub mod meta;
pub mod report;
pub mod signature;
pub mod steps;
pub mod sync;
