//! The command-line frontend's own logic: session-token handling, where
//! input comes from, and the human-readable renderings of server responses.

pub mod input;
pub mod output;
pub mod token;
