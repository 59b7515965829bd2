//! The session token kept between command-line invocations.
//!
//! The token lives in the operating system's keyring; what is read back is
//! trimmed, and a blank entry counts as no token at all.

use vstd::prelude::*;

use crate::textual::{trim, trimmed};

verus! {

/// The session token a stored keyring password stands for: the password
/// trimmed, or `None` when nothing but whitespace is left.
pub fn token_from_stored(password: &str) -> (r: Option<String>)
    ensures
        match r {
            Some(t) => t@ == trimmed(password@) && t@.len() > 0,
            None => trimmed(password@).len() == 0,
        },
{
    let token = trim(password);
    if token.unicode_len() == 0 {
        None
    } else {
        Some(token)
    }
}

} // verus!
