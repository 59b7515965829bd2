//! What a single-sign-on provider (Keycloak, Authentik, …) hands back.

use vstd::prelude::*;

use crate::models::ids::UserId;

verus! {

/// The identity an SSO provider attests for a valid token.
///
/// The provider is the authentication authority only: it answers "which user
/// does this token belong to". The attested user must already exist locally.
#[derive(Debug)]
pub struct SsoIdentity {
    /// Stable local identity the token's subject maps to.
    pub id: UserId,
}

/// What a client needs to know to start an SSO login. With SSO disabled,
/// `enabled` is `false` and `login_url` is `None`.
#[derive(Debug)]
pub struct SsoMetadata {
    /// Whether an external IdP is configured and SSO login is possible.
    pub enabled: bool,
    /// Absolute URL of the server's SSO start endpoint, when enabled.
    pub login_url: Option<String>,
}

impl SsoMetadata {
    /// The metadata of a provider that drives no browser login.
    pub fn disabled() -> (r: SsoMetadata)
        ensures
            !r.enabled,
            r.login_url is None,
    {
        SsoMetadata { enabled: false, login_url: None }
    }
}

/// The outcome of completing the browser leg of an SSO login: the access token
/// obtained from the IdP and the client's loopback redirect.
#[derive(Debug)]
pub struct SsoCompletion {
    /// The OIDC access token the provider issued for the authenticated user.
    pub access_token: String,
    /// The app's loopback URL to redirect the browser back to.
    pub app_redirect: String,
}

} // verus!
