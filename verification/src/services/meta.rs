//! Service metadata and health-probe use-cases.
//!
//! [`MetaService`] reports what the service is and whether it can serve.
//! Readiness probes the user, session and report stores in turn and reports the
//! first that is unhealthy or unreachable.

use vstd::prelude::*;

use crate::errors::DomainError;
use crate::models::meta::ServiceInfo;
use crate::ports::status::{domain_error_for, status_error, PortStatus};

verus! {

/// Reports metadata and health for the running service, over user storage
/// `U`, session storage `S` and report storage `R`.
#[derive(Debug, Clone)]
pub struct MetaService<U, S, R> {
    info: ServiceInfo,
    users: U,
    sessions: S,
    reports: R,
}

impl<U, S, R> MetaService<U, S, R> {
    /// Build the service from its name and semantic version, plus the stores
    /// whose health readiness reports.
    pub fn new(name: String, version: String, users: U, sessions: S, reports: R) -> (r: Self)
        ensures
            r.name() == name@,
            r.version() == version@,
            r.stores() == (users, sessions, reports),
    {
        MetaService { info: ServiceInfo { name, version }, users, sessions, reports }
    }

    /// The service's name.
    pub closed spec fn name(&self) -> Seq<char> {
        self.info.name@
    }

    /// The service's version.
    pub closed spec fn version(&self) -> Seq<char> {
        self.info.version@
    }

    /// The stores readiness probes.
    pub closed spec fn stores(&self) -> (U, S, R) {
        (self.users, self.sessions, self.reports)
    }

    /// Basic metadata about the running service.
    pub fn info(&self) -> (r: Result<ServiceInfo, DomainError>)
        ensures
            r matches Ok(i) && i.name@ == self.name() && i.version@ == self.version(),
    {
        Ok(self.info.clone())
    }

    /// Liveness: the service has started and can accept requests, whatever
    /// the state of its backends.
    pub fn health(&self) -> (r: Result<(), DomainError>)
        ensures
            r is Ok,
    {
        Ok(())
    }

    /// User storage.
    pub fn users(&self) -> (r: &U)
        ensures
            *r == self.stores().0,
    {
        &self.users
    }

    /// Session storage.
    pub fn sessions(&self) -> (r: &S)
        ensures
            *r == self.stores().1,
    {
        &self.sessions
    }

    /// Report storage.
    pub fn reports(&self) -> (r: &R)
        ensures
            *r == self.stores().2,
    {
        &self.reports
    }
}

/// Turn a probed status into a readiness result: healthy passes, anything else
/// is the corresponding backend error.
pub fn check(status: PortStatus) -> (r: Result<(), DomainError>)
    ensures
        match status_error(status) {
            None => r is Ok,
            Some(m) => r matches Err(e) && e is Backend && e.message() == m,
        },
{
    match domain_error_for(status) {
        Ok(err) => Err(err),
        Err(_) => Ok(()),
    }
}

/// Where a readiness check stands: which store it waits to hear from.
#[derive(Debug)]
pub enum ReadinessFlow {
    /// Waiting for the status of user storage.
    AwaitUsers,
    /// Waiting for the status of session storage.
    AwaitSessions,
    /// Waiting for the status of report storage.
    AwaitReports,
    /// Done; the result was handed out.
    Finished,
}

/// What a readiness check does next.
#[derive(Debug)]
pub enum ReadinessAction {
    /// Ask user storage for its status.
    ProbeUsers,
    /// Ask session storage for its status.
    ProbeSessions,
    /// Ask report storage for its status.
    ProbeReports,
    /// Stop with this result.
    Finish(Result<(), DomainError>),
}

impl ReadinessFlow {
    /// Begin a readiness check: user storage is probed first.
    pub fn start() -> (r: (ReadinessFlow, ReadinessAction))
        ensures
            r.0 is AwaitUsers,
            r.1 is ProbeUsers,
    {
        (ReadinessFlow::AwaitUsers, ReadinessAction::ProbeUsers)
    }

    /// The next state and action once the store probed last reported
    /// `status`. The stores are probed in the order users, sessions, reports;
    /// the first that is not healthy ends the check with its backend error and
    /// the stores after it are not probed. All three healthy is ready.
    pub fn step(self, status: PortStatus) -> (r: (ReadinessFlow, ReadinessAction))
        requires
            !(self is Finished),
        ensures
            match status_error(status) {
                Some(m) => {
                    &&& r.0 is Finished
                    &&& r.1 matches ReadinessAction::Finish(Err(e)) && e is Backend
                        && e.message() == m
                },
                None => match self {
                    ReadinessFlow::AwaitUsers => r.0 is AwaitSessions && r.1 is ProbeSessions,
                    ReadinessFlow::AwaitSessions => r.0 is AwaitReports && r.1 is ProbeReports,
                    _ => r.0 is Finished && r.1 matches ReadinessAction::Finish(Ok(())),
                },
            },
    {
        match check(status) {
            Err(e) => (ReadinessFlow::Finished, ReadinessAction::Finish(Err(e))),
            Ok(()) => match self {
                ReadinessFlow::AwaitUsers => (ReadinessFlow::AwaitSessions, ReadinessAction::ProbeSessions),
                ReadinessFlow::AwaitSessions => (
                    ReadinessFlow::AwaitReports,
                    ReadinessAction::ProbeReports,
                ),
                _ => (ReadinessFlow::Finished, ReadinessAction::Finish(Ok(()))),
            },
        }
    }
}

} // verus!
