//! Self-service signature registration.
//!
//! [`SignatureService`] is the use-case behind a user setting (or replacing)
//! their signature image. Who may register one is decided by the API layer;
//! this service stamps each save with the current time and stores it.

use vstd::prelude::*;

verus! {

/// Sets and reads users' signatures over signature storage `S`.
#[derive(Debug, Clone)]
pub struct SignatureService<S> {
    signatures: S,
}

impl<S> SignatureService<S> {
    /// Wire the service to signature storage.
    pub fn new(signatures: S) -> (r: Self)
        ensures
            r.storage() == signatures,
    {
        SignatureService { signatures }
    }

    /// Signature storage.
    pub closed spec fn storage(&self) -> S {
        self.signatures
    }

    /// Signature storage.
    pub fn signatures(&self) -> (r: &S)
        ensures
            *r == self.storage(),
    {
        &self.signatures
    }
}

} // verus!
