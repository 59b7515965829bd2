//! The session-aware client for the relatum server: the base URL and, once
//! logged in, the bearer token every request carries.

use vstd::prelude::*;

use crate::textual::{decimal, push_decimal};

verus! {

/// Anything that can go wrong talking to the server.
#[derive(Debug)]
pub enum ClientError {
    /// The request never produced a valid HTTP response (DNS, TLS, connection,
    /// timeout, malformed URL, …).
    Transport(String),
    /// The server answered with a non-success status and a structured error body.
    Api { status: u16, code: String, message: String },
    /// The server answered, but not in any shape the contract anticipates.
    Unexpected(String),
}

/// The message of a failed export answered without a structured body.
pub open spec fn export_failure_message(status: u16) -> Seq<char> {
    "export request failed with status "@ + decimal(status as nat)
}

/// The error for a non-success export answer with HTTP `status`: the server's
/// structured `(code, message)` body when it sent one, else a generic one.
pub fn export_failure(status: u16, body: Option<(String, String)>) -> (r: ClientError)
    ensures
        match body {
            Some((code, message)) => r matches ClientError::Api { status: s, code: c, message: m }
                && s == status && c@ == code@ && m@ == message@,
            None => r matches ClientError::Api { status: s, code: c, message: m } && s == status
                && c@ == "error"@ && m@ == export_failure_message(status),
        },
{
    match body {
        Some((code, message)) => ClientError::Api { status, code, message },
        None => {
            let mut message = String::from_str("export request failed with status ");
            push_decimal(&mut message, status as u64);
            ClientError::Api { status, code: String::from_str("error"), message }
        },
    }
}

/// The error for an answer with a status the operation never declared and no
/// structured body; `status_text` is how the status reads (such as
/// `404 Not Found`).
pub fn unexpected_status(status_text: &str) -> (r: ClientError)
    ensures
        r matches ClientError::Unexpected(m) && m@ == "undocumented HTTP "@ + status_text@
            + " response"@,
{
    let mut message = String::from_str("undocumented HTTP ");
    message.append(status_text);
    message.append(" response");
    ClientError::Unexpected(message)
}

/// The error for a probe or metadata request answered with an undocumented
/// status: the status, the code `unexpected` and `message`.
pub fn probe_failure(status: u16, message: &str) -> (r: ClientError)
    ensures
        r matches ClientError::Api { status: s, code: c, message: m } && s == status && c@
            == "unexpected"@ && m@ == message@,
{
    ClientError::Api {
        status,
        code: String::from_str("unexpected"),
        message: message.to_owned(),
    }
}

/// The outcome of fetching the caller's signature: the documented `404` means
/// none is on file, which is an absence and not an error.
pub fn signature_lookup<T>(result: Result<T, ClientError>) -> (r: Result<Option<T>, ClientError>)
    ensures
        match result {
            Ok(v) => r == Ok::<Option<T>, ClientError>(Some(v)),
            Err(ClientError::Api { status, code, message }) => if status == 404 {
                r == Ok::<Option<T>, ClientError>(None)
            } else {
                r matches Err(ClientError::Api { status: s, code: c, message: m }) && s == status
                    && c == code && m == message
            },
            Err(e) => r == Err::<Option<T>, ClientError>(e),
        },
{
    match result {
        Ok(v) => Ok(Some(v)),
        Err(ClientError::Api { status, code, message }) => if status == 404 {
            Ok(None)
        } else {
            Err(ClientError::Api { status, code, message })
        },
        Err(e) => Err(e),
    }
}

/// A session-aware client for the relatum server.
#[derive(Debug)]
pub struct Client {
    base_url: String,
    token: Option<String>,
}

/// The view of an optional token.
pub open spec fn token_view(token: Option<String>) -> Option<Seq<char>> {
    match token {
        Some(t) => Some(t@),
        None => None,
    }
}

impl Client {
    /// The server's base URL.
    pub closed spec fn base_url_spec(&self) -> Seq<char> {
        self.base_url@
    }

    /// The session token held, if any.
    pub closed spec fn token_spec(&self) -> Option<Seq<char>> {
        token_view(self.token)
    }

    /// A client with no session yet.
    pub fn new(base_url: String) -> (r: Client)
        ensures
            r.base_url_spec() == base_url@,
            r.token_spec() is None,
    {
        Client { base_url, token: None }
    }

    /// A client that resumes an existing session.
    pub fn with_token(base_url: String, token: Option<String>) -> (r: Client)
        ensures
            r.base_url_spec() == base_url@,
            r.token_spec() == token_view(token),
    {
        Client { base_url, token }
    }

    /// The server's base URL.
    pub fn base_url(&self) -> (r: &str)
        ensures
            r@ == self.base_url_spec(),
    {
        self.base_url.as_str()
    }

    /// The current session token, if logged in.
    pub fn token(&self) -> (r: Option<&str>)
        ensures
            match r {
                Some(t) => self.token_spec() == Some(t@),
                None => self.token_spec() is None,
            },
    {
        match &self.token {
            Some(t) => Some(t.as_str()),
            None => None,
        }
    }

    /// Replace (or clear, with `None`) the session token.
    pub fn set_token(&mut self, token: Option<String>)
        ensures
            final(self).token_spec() == token_view(token),
            final(self).base_url_spec() == old(self).base_url_spec(),
    {
        self.token = token;
    }

    /// The `Authorization` header value every request carries once logged in:
    /// `Bearer` and the token.
    pub fn bearer_header(&self) -> (r: Option<String>)
        ensures
            match self.token_spec() {
                Some(t) => r matches Some(h) && h@ == "Bearer "@ + t,
                None => r is None,
            },
    {
        match &self.token {
            Some(t) => {
                let mut header = String::from_str("Bearer ");
                header.append(t.as_str());
                Some(header)
            },
            None => None,
        }
    }

    /// The URL of the API path `path` (which starts with `/`) on this server.
    pub fn endpoint(&self, path: &str) -> (r: String)
        ensures
            r@ == self.base_url_spec() + path@,
    {
        let mut url = self.base_url.clone();
        url.append(path);
        url
    }

    /// Where a report's PDF is downloaded from. Report ids are server-minted
    /// opaque tokens, so the path needs no escaping.
    pub fn export_url(&self, id: &str) -> (r: String)
        ensures
            r@ == self.base_url_spec() + "/api/v1/reports/"@ + id@ + "/export"@,
    {
        let mut url = self.base_url.clone();
        url.append("/api/v1/reports/");
        url.append(id);
        url.append("/export");
        url
    }

    /// End the session locally, whatever the server answers: the token is
    /// forgotten, and the `Authorization` header of the session being ended is
    /// handed back — the server is told to revoke it only when one was held.
    pub fn end_session(&mut self) -> (r: Option<String>)
        ensures
            match old(self).token_spec() {
                Some(t) => r matches Some(h) && h@ == "Bearer "@ + t,
                None => r is None,
            },
            final(self).token_spec() is None,
            final(self).base_url_spec() == old(self).base_url_spec(),
    {
        let header = self.bearer_header();
        self.token = None;
        header
    }

    /// Whether a session token is currently held.
    pub fn is_authenticated(&self) -> (r: bool)
        ensures
            r == self.token_spec() is Some,
    {
        self.token.is_some()
    }
}

impl Clone for Client {
    fn clone(&self) -> (r: Client)
        ensures
            r.base_url_spec() == self.base_url_spec(),
            r.token_spec() == self.token_spec(),
    {
        Client {
            base_url: self.base_url.clone(),
            token: match &self.token {
                Some(t) => Some(t.clone()),
                None => None,
            },
        }
    }
}

} // verus!
