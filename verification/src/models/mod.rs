//! Domain entities and value objects.

pub mod auth;
pub mod department;
pub mod ids;
pub mod meta;
pub mod report;
pub mod signature;
pub mod time;
pub mod users;
pub mod week;
