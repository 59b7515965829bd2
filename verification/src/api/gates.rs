//! The role checks the handlers make on the authenticated caller before they
//! reach a service that carries no authorization of its own.

use vstd::prelude::*;

use crate::api::error::ApiError;
use crate::models::users::{DirectoryMarker, User};

verus! {

/// Only the roles that appear on a report may register a signature: a trainee
/// (as author) or a signer (as approver). Instructors are read-only and an
/// inert user has no role; both are [`ApiError::Forbidden`].
pub fn require_author_or_signer(user: &User) -> (r: Result<(), ApiError>)
    ensures
        r is Ok <==> (user@.department is Some && user@.marker != DirectoryMarker::Instructor),
        r matches Err(e) ==> e is Forbidden && e.detail() == if user@.department is None {
            "assign a department before registering a signature"@
        } else {
            "instructors do not author or sign reports, so cannot register a signature"@
        },
{
    match user.role() {
        Some(role) => {
            if role.is_instructor() {
                Err(
                    ApiError::Forbidden(
                        String::from_str(
                            "instructors do not author or sign reports, so cannot register a signature",
                        ),
                    ),
                )
            } else {
                Ok(())
            }
        },
        None => Err(
            ApiError::Forbidden(
                String::from_str("assign a department before registering a signature"),
            ),
        ),
    }
}

/// Only instructors (with a department) may administer users; anyone else is
/// [`ApiError::Forbidden`].
pub fn require_instructor(user: &User) -> (r: Result<(), ApiError>)
    ensures
        r is Ok <==> (user@.department is Some && user@.marker == DirectoryMarker::Instructor),
        r matches Err(e) ==> e is Forbidden && e.detail() == "only instructors may administer users"@,
{
    match user.role() {
        Some(role) => {
            if role.is_instructor() {
                return Ok(());
            }
        },
        None => {},
    }
    Err(ApiError::Forbidden(String::from_str("only instructors may administer users")))
}

} // verus!
