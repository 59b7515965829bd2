//! The browser leg of the SSO login: where to send the browser next.

use vstd::prelude::*;

use crate::textual::same_text;

verus! {

/// Query of the SSO start endpoint: the app's loopback URL and its CSRF nonce.
#[derive(Debug)]
pub struct StartQuery {
    /// The client's loopback URL to return the browser to once done.
    pub redirect_uri: String,
    /// The app's own nonce, echoed back so the app can verify the response.
    pub state: String,
}

impl StartQuery {
    /// The app's loopback URL carrying its nonce, `<redirect_uri>?state=<state>`,
    /// so the nonce travels through the IdP leg and comes back for the app to
    /// verify.
    pub fn app_redirect(&self) -> (r: String)
        ensures
            r@ == self.redirect_uri@ + "?state="@ + self.state@,
    {
        let mut url = self.redirect_uri.clone();
        url.append("?state=");
        url.append(self.state.as_str());
        url
    }
}

/// Query of the SSO callback: the IdP's authorization code and matching state.
#[derive(Debug)]
pub struct CallbackQuery {
    /// The authorization code to exchange for an access token.
    pub code: String,
    /// The state the server handed the IdP, matching a pending login.
    pub state: String,
}

/// Where the callback sends the browser: the app redirect (which already
/// carries `?state=<nonce>`) with the single-use handoff code appended. The
/// session token never travels in the URL.
pub fn callback_target(app_redirect: &str, handoff: &str) -> (r: String)
    ensures
        r@ == app_redirect@ + "&code="@ + handoff@,
{
    let mut url = String::from_str(app_redirect);
    url.append("&code=");
    url.append(handoff);
    url
}

/// Whether `path` is one of the liveness/readiness probes that are polled
/// constantly (and so logged quietly).
pub fn is_probe(path: &str) -> (r: bool)
    ensures
        r == (path@ == "/api/v1/healthz"@ || path@ == "/api/v1/readyz"@),
{
    same_text(path, "/api/v1/healthz") || same_text(path, "/api/v1/readyz")
}

} // verus!
