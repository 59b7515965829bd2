//! Unified API error type and its wire representation.
//!
//! [`ApiError`] is the transport-side counterpart of [`DomainError`]: it adds an
//! HTTP status (a plain `u16`) and a stable, machine-readable code. The JSON
//! body clients receive is [`ErrorResponse`].

use vstd::prelude::*;

use crate::errors::DomainError;

verus! {

/// Everything the API can fail with.
#[derive(Debug)]
pub enum ApiError {
    /// The requested resource does not exist. -> 404
    NotFound(String),
    /// The request was malformed or failed validation. -> 400
    BadRequest(String),
    /// Authentication is required or the token is invalid. -> 401
    Unauthorized(String),
    /// The user is not allowed to access this. -> 403
    Forbidden(String),
    /// The request conflicts with existing state. -> 409
    Conflict(String),
    /// The action is permitted but a required precondition is unmet. -> 428
    PreconditionRequired(String),
    /// A backend operation (storage, the directory, the session store, …) failed. -> 502
    Backend(String),
    /// An unexpected internal error. -> 500
    Internal(String),
}

impl ApiError {
    /// The HTTP status code of each variant.
    pub open spec fn status_spec(&self) -> u16 {
        match self {
            ApiError::NotFound(_) => 404,
            ApiError::BadRequest(_) => 400,
            ApiError::Unauthorized(_) => 401,
            ApiError::Forbidden(_) => 403,
            ApiError::Conflict(_) => 409,
            ApiError::PreconditionRequired(_) => 428,
            ApiError::Backend(_) => 502,
            ApiError::Internal(_) => 500,
        }
    }

    /// The stable machine-readable code of each variant.
    pub open spec fn code_spec(&self) -> Seq<char> {
        match self {
            ApiError::NotFound(_) => "not_found"@,
            ApiError::BadRequest(_) => "bad_request"@,
            ApiError::Unauthorized(_) => "unauthorized"@,
            ApiError::Forbidden(_) => "forbidden"@,
            ApiError::Conflict(_) => "conflict"@,
            ApiError::PreconditionRequired(_) => "precondition_required"@,
            ApiError::Backend(_) => "backend"@,
            ApiError::Internal(_) => "internal"@,
        }
    }

    /// The prefix of each variant's human-readable text.
    pub open spec fn label_spec(&self) -> Seq<char> {
        match self {
            ApiError::NotFound(_) => "not found: "@,
            ApiError::BadRequest(_) => "bad request: "@,
            ApiError::Unauthorized(_) => "unauthorized: "@,
            ApiError::Forbidden(_) => "access denied: "@,
            ApiError::Conflict(_) => "conflict: "@,
            ApiError::PreconditionRequired(_) => "precondition required: "@,
            ApiError::Backend(_) => "backend error: "@,
            ApiError::Internal(_) => "internal error: "@,
        }
    }

    /// The detail each variant carries.
    pub open spec fn detail(&self) -> Seq<char> {
        match self {
            ApiError::NotFound(m) => m@,
            ApiError::BadRequest(m) => m@,
            ApiError::Unauthorized(m) => m@,
            ApiError::Forbidden(m) => m@,
            ApiError::Conflict(m) => m@,
            ApiError::PreconditionRequired(m) => m@,
            ApiError::Backend(m) => m@,
            ApiError::Internal(m) => m@,
        }
    }

    /// The HTTP status code this error maps to.
    pub fn status(&self) -> (r: u16)
        ensures
            r == self.status_spec(),
    {
        match self {
            ApiError::NotFound(_) => 404,
            ApiError::BadRequest(_) => 400,
            ApiError::Unauthorized(_) => 401,
            ApiError::Forbidden(_) => 403,
            ApiError::Conflict(_) => 409,
            ApiError::PreconditionRequired(_) => 428,
            ApiError::Backend(_) => 502,
            ApiError::Internal(_) => 500,
        }
    }

    /// The stable machine-readable code, e.g. `"not_found"`.
    pub fn code(&self) -> (r: String)
        ensures
            r@ == self.code_spec(),
    {
        match self {
            ApiError::Backend(_) => String::from_str("backend"),
            ApiError::BadRequest(_) => String::from_str("bad_request"),
            ApiError::Conflict(_) => String::from_str("conflict"),
            ApiError::Forbidden(_) => String::from_str("forbidden"),
            ApiError::Internal(_) => String::from_str("internal"),
            ApiError::NotFound(_) => String::from_str("not_found"),
            ApiError::PreconditionRequired(_) => String::from_str("precondition_required"),
            ApiError::Unauthorized(_) => String::from_str("unauthorized"),
        }
    }

    /// The human-readable text of this error, e.g. `"not found: report r1"`.
    pub fn to_string(&self) -> (r: String)
        ensures
            r@ == self.label_spec() + self.detail(),
    {
        let (label, detail) = match self {
            ApiError::NotFound(m) => ("not found: ", m),
            ApiError::BadRequest(m) => ("bad request: ", m),
            ApiError::Unauthorized(m) => ("unauthorized: ", m),
            ApiError::Forbidden(m) => ("access denied: ", m),
            ApiError::Conflict(m) => ("conflict: ", m),
            ApiError::PreconditionRequired(m) => ("precondition required: ", m),
            ApiError::Backend(m) => ("backend error: ", m),
            ApiError::Internal(m) => ("internal error: ", m),
        };
        let mut text = String::from_str(label);
        text.append(detail.as_str());
        text
    }
}

/// The API error a domain failure is reported as: the one place the API's
/// status-code policy is decided.
pub open spec fn api_error_for(err: DomainError) -> ApiError {
    match err {
        DomainError::NotFound(m) => ApiError::NotFound(m),
        DomainError::Invalid(m) => ApiError::BadRequest(m),
        DomainError::Unauthorized(m) => ApiError::Unauthorized(m),
        DomainError::Forbidden(m) => ApiError::Forbidden(m),
        DomainError::Conflict(m) => ApiError::Conflict(m),
        DomainError::Precondition(m) => ApiError::PreconditionRequired(m),
        DomainError::Backend(m) => ApiError::Backend(m),
        DomainError::Internal(m) => ApiError::Internal(m),
    }
}

impl From<DomainError> for ApiError {
    fn from(err: DomainError) -> (r: ApiError) {
        match err {
            DomainError::NotFound(m) => ApiError::NotFound(m),
            DomainError::Invalid(m) => ApiError::BadRequest(m),
            DomainError::Unauthorized(m) => ApiError::Unauthorized(m),
            DomainError::Forbidden(m) => ApiError::Forbidden(m),
            DomainError::Conflict(m) => ApiError::Conflict(m),
            DomainError::Precondition(m) => ApiError::PreconditionRequired(m),
            DomainError::Backend(m) => ApiError::Backend(m),
            DomainError::Internal(m) => ApiError::Internal(m),
        }
    }
}

impl vstd::std_specs::convert::FromSpecImpl<DomainError> for ApiError {
    open spec fn obeys_from_spec() -> bool {
        true
    }

    open spec fn from_spec(v: DomainError) -> ApiError {
        api_error_for(v)
    }
}

/// The JSON body returned to clients when a request fails.
#[derive(Debug)]
pub struct ErrorResponse {
    /// HTTP status code, echoed in the body for convenience.
    pub status: u16,
    /// Stable machine-readable code, e.g. `"not_found"`.
    pub code: String,
    /// Human-readable description of what went wrong.
    pub message: String,
}

impl ErrorResponse {
    /// The body reporting `err`: its status, code and text.
    pub fn from_error(err: &ApiError) -> (r: ErrorResponse)
        ensures
            r.status == err.status_spec(),
            r.code@ == err.code_spec(),
            r.message@ == err.label_spec() + err.detail(),
    {
        ErrorResponse { status: err.status(), code: err.code(), message: err.to_string() }
    }
}

/// Every domain failure keeps its message through the mapping, and lands on the
/// status the API documents for it: not-found 404, invalid input 400,
/// unauthorized 401, forbidden 403, conflict 409, unmet precondition 428,
/// backend 502, internal 500.
pub proof fn lemma_status_policy(err: DomainError)
    ensures
        api_error_for(err).detail() == err.message(),
        api_error_for(err).status_spec() == match err {
            DomainError::NotFound(_) => 404u16,
            DomainError::Invalid(_) => 400u16,
            DomainError::Unauthorized(_) => 401u16,
            DomainError::Forbidden(_) => 403u16,
            DomainError::Conflict(_) => 409u16,
            DomainError::Precondition(_) => 428u16,
            DomainError::Backend(_) => 502u16,
            DomainError::Internal(_) => 500u16,
        },
{
}

} // verus!
