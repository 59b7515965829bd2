//! Shared application state: the services every handler can reach.

use vstd::prelude::*;

use crate::services::admin::UserAdmin;
use crate::services::auth::Authenticator;
use crate::services::meta::MetaService;
use crate::services::report::ReportService;
use crate::services::signature::SignatureService;

verus! {

/// The services every handler can reach, over user storage `U`, a session
/// repository `S`, an id generator `I`, an SSO provider `P`, report storage
/// `R` and signature storage `G`.
#[derive(Debug, Clone)]
pub struct AppState<U, S, I, P, R, G> {
    /// Authentication use-cases (login / logout / refresh / authenticate).
    pub auth: Authenticator<U, S, I, P>,
    /// Service metadata and health probes.
    pub meta: MetaService<U, S, R>,
    /// The report submit → sign workflow.
    pub reports: ReportService<R, U, I, G>,
    /// Manual user administration (department assignment).
    pub admin: UserAdmin<U>,
    /// Self-service signature registration.
    pub signatures: SignatureService<G>,
}

impl<U, S, I, P, R, G> AppState<U, S, I, P, R, G> {
    /// Bundle the services into one state value.
    pub fn new(
        auth: Authenticator<U, S, I, P>,
        meta: MetaService<U, S, R>,
        reports: ReportService<R, U, I, G>,
        admin: UserAdmin<U>,
        signatures: SignatureService<G>,
    ) -> (r: Self)
        ensures
            r.auth == auth,
            r.meta == meta,
            r.reports == reports,
            r.admin == admin,
            r.signatures == signatures,
    {
        AppState { auth, meta, reports, admin, signatures }
    }
}

} // verus!
