//! The failure vocabulary of the domain.
//!
//! [`DomainError`] knows nothing about HTTP status codes or any transport; the
//! API layer owns the mapping from each variant to a status code and wire body
//! (see [`ApiError`](crate::api::error::ApiError)).

use vstd::prelude::*;

verus! {

/// Everything a domain operation can fail with.
#[derive(Debug)]
pub enum DomainError {
    /// The requested resource does not exist.
    NotFound(String),
    /// The input failed validation / was semantically malformed.
    Invalid(String),
    /// Authentication is required or the supplied credentials/token are invalid.
    Unauthorized(String),
    /// The caller is authenticated but not permitted to perform this action.
    Forbidden(String),
    /// The request conflicts with existing state, e.g. a trainee already has a
    /// report for the week.
    Conflict(String),
    /// The action is permitted but a required precondition is unmet, e.g. a
    /// trainee must register a signature before submitting a report.
    Precondition(String),
    /// A downstream dependency (storage, the user directory, the session store, …) failed.
    Backend(String),
    /// An unexpected internal error.
    Internal(String),
}

/// The kind of a [`DomainError`], without its message.
#[derive(Debug, Clone, Copy, PartialEq, Eq, Structural)]
pub enum DomainErrorKind {
    NotFound,
    Invalid,
    Unauthorized,
    Forbidden,
    Conflict,
    Precondition,
    Backend,
    Internal,
}

impl DomainError {
    /// The variant of this error.
    pub open spec fn kind(&self) -> DomainErrorKind {
        match self {
            DomainError::NotFound(_) => DomainErrorKind::NotFound,
            DomainError::Invalid(_) => DomainErrorKind::Invalid,
            DomainError::Unauthorized(_) => DomainErrorKind::Unauthorized,
            DomainError::Forbidden(_) => DomainErrorKind::Forbidden,
            DomainError::Conflict(_) => DomainErrorKind::Conflict,
            DomainError::Precondition(_) => DomainErrorKind::Precondition,
            DomainError::Backend(_) => DomainErrorKind::Backend,
            DomainError::Internal(_) => DomainErrorKind::Internal,
        }
    }

    /// The human-readable message this error carries.
    pub open spec fn message(&self) -> Seq<char> {
        match self {
            DomainError::NotFound(m) => m@,
            DomainError::Invalid(m) => m@,
            DomainError::Unauthorized(m) => m@,
            DomainError::Forbidden(m) => m@,
            DomainError::Conflict(m) => m@,
            DomainError::Precondition(m) => m@,
            DomainError::Backend(m) => m@,
            DomainError::Internal(m) => m@,
        }
    }
}

/// Whether `r` failed, and with an error of kind `kind`.
pub open spec fn fails_with<T>(r: Result<T, DomainError>, kind: DomainErrorKind) -> bool {
    r matches Err(e) && e.kind() == kind
}

} // verus!
