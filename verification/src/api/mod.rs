//! The HTTP contract: error mapping, wire shapes, and the request-level checks
//! the handlers make before calling into the services.

pub mod dtos;
pub mod error;
pub mod extract;
pub mod gates;
pub mod sso;
pub mod state;
