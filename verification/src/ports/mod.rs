//! The values exchanged with the outside world.
//!
//! The storage, directory, session and single-sign-on backends themselves are
//! driven by the application around this library; what crosses that boundary —
//! directory entries, attested identities, backend status — is defined here.

pub mod directory;
pub mod ids;
pub mod sso_connector;
pub mod status;
