//! Authentication value objects.

use vstd::prelude::*;

use crate::models::ids::UserId;

verus! {

/// Credentials presented by a user when logging in.
///
/// Authentication is SSO-only: a login carries just the access token the
/// external identity provider issued.
#[derive(Debug)]
pub struct Credentials {
    /// The SSO access token issued by the external identity provider.
    pub token: String,
}

/// An opaque session token issued after a successful login.
///
/// The `subject` binds the token to the user it authenticates. Only `value` is
/// handed to the client; `subject` is server-side state.
#[derive(Debug)]
pub struct SessionToken {
    /// The opaque token value — the bearer credential presented by the client.
    pub value: String,
    /// The user this token authenticates.
    pub subject: UserId,
}

impl Clone for SessionToken {
    fn clone(&self) -> (r: SessionToken)
        ensures
            r.value@ == self.value@,
            r.subject@ == self.subject@,
    {
        SessionToken { value: self.value.clone(), subject: self.subject.clone() }
    }
}

} // verus!
