//! Authentication use-cases.
//!
//! [`Authenticator`] is behind login, logout, refresh and the resolution of a
//! bearer token to its user. Authentication is SSO-only: the provider attests
//! which user a token belongs to, that user must already exist locally (the
//! directory sync provisions users — login never does), and a fresh opaque
//! session token is minted and stored.

use vstd::prelude::*;

use crate::errors::DomainError;
use crate::models::auth::SessionToken;
use crate::models::ids::UserId;
use crate::models::users::User;
use crate::ports::sso_connector::SsoIdentity;

verus! {

/// Validates SSO tokens and manages session tokens, over user storage `U`, a
/// session repository `S`, an id generator `I` and an SSO provider `P`.
#[derive(Debug, Clone)]
pub struct Authenticator<U, S, I, P> {
    users: U,
    sessions: S,
    ids: I,
    sso: P,
}

impl<U, S, I, P> Authenticator<U, S, I, P> {
    /// Wire the authenticator to its user-storage, session, id-generation, and
    /// single-sign-on backends.
    pub fn new(users: U, sessions: S, ids: I, sso: P) -> (r: Self)
        ensures
            r.parts() == (users, sessions, ids, sso),
    {
        Authenticator { users, sessions, ids, sso }
    }

    /// The backends the authenticator was wired to.
    pub closed spec fn parts(&self) -> (U, S, I, P) {
        (self.users, self.sessions, self.ids, self.sso)
    }

    /// User storage.
    pub fn users(&self) -> (r: &U)
        ensures
            *r == self.parts().0,
    {
        &self.users
    }

    /// The session repository.
    pub fn sessions(&self) -> (r: &S)
        ensures
            *r == self.parts().1,
    {
        &self.sessions
    }

    /// The id generator.
    pub fn ids(&self) -> (r: &I)
        ensures
            *r == self.parts().2,
    {
        &self.ids
    }

    /// The SSO provider.
    pub fn sso(&self) -> (r: &P)
        ensures
            *r == self.parts().3,
    {
        &self.sso
    }
}

/// The message of a refused login. An invalid token and an attested user that
/// was never synced are refused alike, so a caller cannot tell them apart.
pub open spec fn refused_login_message() -> Seq<char> {
    "invalid or unrecognised SSO login"@
}

/// The message of an unknown, expired or orphaned session.
pub open spec fn unknown_session_message() -> Seq<char> {
    "unknown or expired session"@
}

/// The user an SSO token was attested for, or [`DomainError::Unauthorized`]
/// when the provider did not recognise the token.
pub fn attested_subject(identity: Option<SsoIdentity>) -> (r: Result<UserId, DomainError>)
    ensures
        match identity {
            Some(i) => r matches Ok(u) && u@ == i.id@,
            None => r matches Err(e) && e is Unauthorized && e.message()
                == refused_login_message(),
        },
{
    match identity {
        Some(identity) => Ok(identity.id),
        None => Err(DomainError::Unauthorized(String::from_str("invalid or unrecognised SSO login"))),
    }
}

/// The attested user must already exist locally; the lookup of them found
/// `user`. A missing one is refused exactly like an invalid token.
pub fn require_synced(user: Option<User>) -> (r: Result<(), DomainError>)
    ensures
        r is Ok <==> user is Some,
        r matches Err(e) ==> e is Unauthorized && e.message() == refused_login_message(),
{
    match user {
        Some(_) => Ok(()),
        None => Err(DomainError::Unauthorized(String::from_str("invalid or unrecognised SSO login"))),
    }
}

/// A session token with the freshly minted `value`, bound to `subject`.
pub fn issue_token(value: String, subject: UserId) -> (r: SessionToken)
    ensures
        r.value@ == value@,
        r.subject@ == subject@,
{
    SessionToken { value, subject }
}

/// The session a presented token was looked up as, or
/// [`DomainError::Unauthorized`] when it is unknown or expired.
pub fn live_session(session: Option<SessionToken>) -> (r: Result<SessionToken, DomainError>)
    ensures
        match session {
            Some(s) => r matches Ok(t) && t.value@ == s.value@ && t.subject@ == s.subject@,
            None => r matches Err(e) && e is Unauthorized && e.message()
                == unknown_session_message(),
        },
{
    match session {
        Some(s) => Ok(s),
        None => Err(DomainError::Unauthorized(String::from_str("unknown or expired session"))),
    }
}

/// The user a live session's subject was looked up as; a session whose user
/// no longer exists is refused like an unknown one.
pub fn session_user(user: Option<User>) -> (r: Result<User, DomainError>)
    ensures
        match user {
            Some(u) => r matches Ok(v) && v@ == u@,
            None => r matches Err(e) && e is Unauthorized && e.message()
                == unknown_session_message(),
        },
{
    match user {
        Some(u) => Ok(u),
        None => Err(DomainError::Unauthorized(String::from_str("unknown or expired session"))),
    }
}

/// Where a login or a token refresh stands.
#[derive(Debug)]
pub enum SessionFlow {
    /// Login: waiting for the provider to say whose token was presented.
    AwaitAttestation,
    /// Login: waiting for the lookup of the attested user.
    AwaitUser { subject: UserId },
    /// Refresh: waiting for the lookup of the presented session token.
    AwaitSession { presented: String },
    /// Waiting for a fresh token value for `subject`; on a refresh, `replaces`
    /// is the token it rotates out.
    AwaitValue { subject: UserId, replaces: Option<String> },
    /// Waiting for the fresh session to be stored.
    AwaitStored { token: SessionToken, replaces: Option<String> },
    /// Refresh: waiting for the old token to be revoked.
    AwaitRevoked { token: SessionToken },
    /// Done; the result was handed out.
    Finished,
}

/// What a round-trip of a login or refresh answered.
#[derive(Debug)]
pub enum SessionEvent {
    /// The provider attested this identity for the token, or none.
    Attested(Option<SsoIdentity>),
    /// The lookup of the attested user found this.
    User(Option<User>),
    /// The lookup of the presented session token found this.
    Session(Option<SessionToken>),
    /// This is a fresh token value.
    Value(String),
    /// The fresh session was stored.
    Stored,
    /// The old token was revoked.
    Revoked,
}

/// What a login or refresh does next.
#[derive(Debug)]
pub enum SessionAction {
    /// Ask the provider whose token this is.
    CheckToken(String),
    /// Look up this user.
    LookupUser(UserId),
    /// Look up this session token.
    LookupSession(String),
    /// Ask the id generator for a fresh token value.
    IssueValue,
    /// Store this session.
    StoreSession(SessionToken),
    /// Revoke this token.
    Revoke(String),
    /// Stop with this result: the fresh session, or why it was refused.
    Finish(Result<SessionToken, DomainError>),
}

impl SessionFlow {
    /// Whether `event` answers the round-trip this flow waits for.
    pub open spec fn expects(&self, event: &SessionEvent) -> bool {
        match self {
            SessionFlow::AwaitAttestation => event is Attested,
            SessionFlow::AwaitUser { .. } => event is User,
            SessionFlow::AwaitSession { .. } => event is Session,
            SessionFlow::AwaitValue { .. } => event is Value,
            SessionFlow::AwaitStored { .. } => event is Stored,
            SessionFlow::AwaitRevoked { .. } => event is Revoked,
            SessionFlow::Finished => false,
        }
    }

    /// Begin a login with an SSO access token: first ask the provider whose
    /// token it is.
    pub fn login(token: String) -> (r: (SessionFlow, SessionAction))
        ensures
            r.0 is AwaitAttestation,
            r.1 matches SessionAction::CheckToken(t) && t@ == token@,
    {
        (SessionFlow::AwaitAttestation, SessionAction::CheckToken(token))
    }

    /// Begin rotating the session token `presented`: first look it up.
    pub fn refresh(presented: String) -> (r: (SessionFlow, SessionAction))
        ensures
            r.0 matches SessionFlow::AwaitSession { presented: p } && p@ == presented@,
            r.1 matches SessionAction::LookupSession(t) && t@ == presented@,
    {
        let lookup = presented.clone();
        (SessionFlow::AwaitSession { presented }, SessionAction::LookupSession(lookup))
    }

    /// The next state and action once `event` answered the last round-trip.
    ///
    /// A login mints a session only for an attested user that already exists
    /// locally; nothing here ever writes a user. A refresh mints a session for
    /// the subject of a live one, stores it, and only then revokes the old
    /// token.
    pub fn step(self, event: SessionEvent) -> (r: (SessionFlow, SessionAction))
        requires
            self.expects(&event),
        ensures
            match (self, event) {
                (SessionFlow::AwaitAttestation, SessionEvent::Attested(identity)) => match identity {
                    None => {
                        &&& r.0 is Finished
                        &&& r.1 matches SessionAction::Finish(Err(e)) && e is Unauthorized
                            && e.message() == refused_login_message()
                    },
                    Some(i) => {
                        &&& r.0 matches SessionFlow::AwaitUser { subject } && subject@ == i.id@
                        &&& r.1 matches SessionAction::LookupUser(u) && u@ == i.id@
                    },
                },
                (SessionFlow::AwaitUser { subject }, SessionEvent::User(user)) => match user {
                    None => {
                        &&& r.0 is Finished
                        &&& r.1 matches SessionAction::Finish(Err(e)) && e is Unauthorized
                            && e.message() == refused_login_message()
                    },
                    Some(_) => {
                        &&& r.0 matches SessionFlow::AwaitValue { subject: s, replaces: None }
                            && s@ == subject@
                        &&& r.1 is IssueValue
                    },
                },
                (SessionFlow::AwaitSession { presented }, SessionEvent::Session(session)) => match session {
                    None => {
                        &&& r.0 is Finished
                        &&& r.1 matches SessionAction::Finish(Err(e)) && e is Unauthorized
                            && e.message() == unknown_session_message()
                    },
                    Some(live) => {
                        &&& r.0 matches SessionFlow::AwaitValue { subject, replaces: Some(old) }
                            && subject@ == live.subject@ && old@ == presented@
                        &&& r.1 is IssueValue
                    },
                },
                (SessionFlow::AwaitValue { subject, replaces }, SessionEvent::Value(value)) => {
                    &&& r.0 matches SessionFlow::AwaitStored { token, replaces: rep }
                        && token.value@ == value@ && token.subject@ == subject@
                        && opt_text(rep) == opt_text(replaces)
                    &&& r.1 matches SessionAction::StoreSession(t) && t.value@ == value@
                        && t.subject@ == subject@
                },
                (SessionFlow::AwaitStored { token, replaces }, SessionEvent::Stored) => match replaces {
                    None => {
                        &&& r.0 is Finished
                        &&& r.1 matches SessionAction::Finish(Ok(t)) && t.value@ == token.value@
                            && t.subject@ == token.subject@
                    },
                    Some(old) => {
                        &&& r.0 matches SessionFlow::AwaitRevoked { token: t } && t.value@
                            == token.value@ && t.subject@ == token.subject@
                        &&& r.1 matches SessionAction::Revoke(o) && o@ == old@
                    },
                },
                (SessionFlow::AwaitRevoked { token }, SessionEvent::Revoked) => {
                    &&& r.0 is Finished
                    &&& r.1 matches SessionAction::Finish(Ok(t)) && t.value@ == token.value@
                        && t.subject@ == token.subject@
                },
                _ => false,
            },
    {
        match self {
            SessionFlow::AwaitAttestation => {
                let identity = match event {
                    SessionEvent::Attested(identity) => identity,
                    _ => { return (SessionFlow::Finished, SessionAction::IssueValue); },
                };
                match attested_subject(identity) {
                    Ok(subject) => {
                        let lookup = subject.clone();
                        (SessionFlow::AwaitUser { subject }, SessionAction::LookupUser(lookup))
                    },
                    Err(e) => (SessionFlow::Finished, SessionAction::Finish(Err(e))),
                }
            },
            SessionFlow::AwaitUser { subject } => {
                let user = match event {
                    SessionEvent::User(user) => user,
                    _ => { return (SessionFlow::Finished, SessionAction::IssueValue); },
                };
                match require_synced(user) {
                    Ok(()) => (
                        SessionFlow::AwaitValue { subject, replaces: None },
                        SessionAction::IssueValue,
                    ),
                    Err(e) => (SessionFlow::Finished, SessionAction::Finish(Err(e))),
                }
            },
            SessionFlow::AwaitSession { presented } => {
                let session = match event {
                    SessionEvent::Session(session) => session,
                    _ => { return (SessionFlow::Finished, SessionAction::IssueValue); },
                };
                match live_session(session) {
                    Ok(live) => (
                        SessionFlow::AwaitValue { subject: live.subject, replaces: Some(presented) },
                        SessionAction::IssueValue,
                    ),
                    Err(e) => (SessionFlow::Finished, SessionAction::Finish(Err(e))),
                }
            },
            SessionFlow::AwaitValue { subject, replaces } => {
                let value = match event {
                    SessionEvent::Value(value) => value,
                    _ => { return (SessionFlow::Finished, SessionAction::IssueValue); },
                };
                let token = issue_token(value, subject);
                let stored = token.clone();
                (SessionFlow::AwaitStored { token, replaces }, SessionAction::StoreSession(stored))
            },
            SessionFlow::AwaitStored { token, replaces } => match replaces {
                None => (SessionFlow::Finished, SessionAction::Finish(Ok(token))),
                Some(old) => (SessionFlow::AwaitRevoked { token }, SessionAction::Revoke(old)),
            },
            SessionFlow::AwaitRevoked { token } => (
                SessionFlow::Finished,
                SessionAction::Finish(Ok(token)),
            ),
            SessionFlow::Finished => (SessionFlow::Finished, SessionAction::IssueValue),
        }
    }
}

/// The text of an optional token.
pub open spec fn opt_text(t: Option<String>) -> Option<Seq<char>> {
    match t {
        Some(s) => Some(s@),
        None => None,
    }
}

} // verus!
