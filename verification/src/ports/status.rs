//! The health a backend reports.

use vstd::prelude::*;

use crate::errors::DomainError;

verus! {

/// Status returned by a backend (a database or any kind of microservice).
#[derive(Debug)]
pub enum PortStatus {
    /// Backend is running as expected.
    Healthy,
    /// No connection was established **this session**.
    NotConnected,
    /// Connection was made, but things are in a suboptimal state (or not working
    /// at all); `reason` explains what is wrong.
    Unhealthy { reason: String },
}

/// The error returned when trying to convert [`PortStatus::Healthy`] into a
/// [`DomainError`].
#[derive(Debug)]
pub struct NotAnError;

/// The error a status stands for: none when healthy, a backend error otherwise.
pub open spec fn status_error(status: PortStatus) -> Option<Seq<char>> {
    match status {
        PortStatus::Healthy => None,
        PortStatus::Unhealthy { reason } => Some("Backend is unhealthy: "@ + reason@),
        PortStatus::NotConnected => Some("Could not connect to backend"@),
    }
}

impl TryFrom<PortStatus> for DomainError {
    type Error = NotAnError;

    fn try_from(value: PortStatus) -> (r: Result<DomainError, NotAnError>)
        ensures
            match status_error(value) {
                None => r is Err,
                Some(m) => r matches Ok(e) && e is Backend && e.message() == m,
            },
    {
        domain_error_for(value)
    }
}

/// The conversion states its result in its own `ensures` (that of
/// [`domain_error_for`], which it calls): the resulting error carries a
/// message, which a spec-level value of the trait cannot hold to, so the
/// trait-level specification is left unclaimed.
impl vstd::std_specs::convert::TryFromSpecImpl<PortStatus> for DomainError {
    open spec fn obeys_try_from_spec() -> bool {
        false
    }

    open spec fn try_from_spec(v: PortStatus) -> Result<DomainError, NotAnError> {
        Err(NotAnError)
    }
}

/// The backend error a status stands for, or [`NotAnError`] when it is healthy.
pub fn domain_error_for(status: PortStatus) -> (r: Result<DomainError, NotAnError>)
    ensures
        match status_error(status) {
            None => r is Err,
            Some(m) => r matches Ok(e) && e is Backend && e.message() == m,
        },
{
    match status {
        PortStatus::Healthy => Err(NotAnError),
        PortStatus::Unhealthy { reason } => {
            let mut message = String::from_str("Backend is unhealthy: ");
            message.append(reason.as_str());
            Ok(DomainError::Backend(message))
        },
        PortStatus::NotConnected => Ok(
            DomainError::Backend(String::from_str("Could not connect to backend")),
        ),
    }
}

} // verus!
