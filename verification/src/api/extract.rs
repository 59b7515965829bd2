//! Turning the `Authorization` header into the presented bearer token.

use vstd::prelude::*;

use crate::api::error::ApiError;
use crate::textual::trimmed;

verus! {

/// What a request carries in its `Authorization` header.
#[derive(Debug)]
pub enum AuthorizationHeader<'a> {
    /// No such header.
    Absent,
    /// A header whose value is not visible ASCII text.
    Unreadable,
    /// The header's text.
    Text(&'a str),
}

/// The raw bearer token presented in the `Authorization: Bearer <token>` header.
#[derive(Debug)]
pub struct BearerToken(pub String);

/// The token a header value `Bearer <token>` presents: the text after the
/// `"Bearer "` prefix, trimmed, if that is not empty.
pub open spec fn presented_token(value: Seq<char>) -> Option<Seq<char>> {
    let prefix = "Bearer "@;
    if value.len() >= prefix.len() && value.take(prefix.len() as int) == prefix && trimmed(
        value.skip(prefix.len() as int),
    ).len() > 0 {
        Some(trimmed(value.skip(prefix.len() as int)))
    } else {
        None
    }
}

/// Pull `<token>` out of an `Authorization: Bearer <token>` header, or fail
/// with [`ApiError::Unauthorized`].
pub fn bearer_token(header: AuthorizationHeader) -> (r: Result<BearerToken, ApiError>)
    ensures
        match header {
            AuthorizationHeader::Text(v) => match presented_token(v@) {
                Some(t) => r matches Ok(b) && b.0@ == t,
                None => r matches Err(e) && e is Unauthorized && e.detail()
                    == "expected a Bearer token"@,
            },
            AuthorizationHeader::Absent => r matches Err(e) && e is Unauthorized && e.detail()
                == "missing Authorization header"@,
            AuthorizationHeader::Unreadable => r matches Err(e) && e is Unauthorized && e.detail()
                == "malformed Authorization header"@,
        },
{
    match header {
        AuthorizationHeader::Absent => Err(
            ApiError::Unauthorized(String::from_str("missing Authorization header")),
        ),
        AuthorizationHeader::Unreadable => Err(
            ApiError::Unauthorized(String::from_str("malformed Authorization header")),
        ),
        AuthorizationHeader::Text(value) => {
            let prefix = "Bearer ";
            proof {
                reveal_strlit("Bearer ");
            }
            let n = value.unicode_len();
            if n >= 7 && starts_with_bearer(value) {
                let rest = value.substring_char(7, n);
                let token = crate::textual::trim(rest);
                assert(value@.take(7) =~= prefix@);
                assert(rest@ =~= value@.skip(7));
                if token.unicode_len() > 0 {
                    return Ok(BearerToken(token));
                }
            } else {
                proof {
                    if value@.len() >= 7 && value@.take(7) == prefix@ {
                        assert(value@[0] == prefix@[0]);
                    }
                }
            }
            Err(ApiError::Unauthorized(String::from_str("expected a Bearer token")))
        },
    }
}

/// Whether `value` begins with `"Bearer "`.
fn starts_with_bearer(value: &str) -> (r: bool)
    requires
        value@.len() >= 7,
    ensures
        r == (value@.take(7) == "Bearer "@),
{
    proof {
        reveal_strlit("Bearer ");
    }
    let r = value.get_char(0) == 'B' && value.get_char(1) == 'e' && value.get_char(2) == 'a'
        && value.get_char(3) == 'r' && value.get_char(4) == 'e' && value.get_char(5) == 'r'
        && value.get_char(6) == ' ';
    assert("Bearer "@ =~= seq!['B', 'e', 'a', 'r', 'e', 'r', ' ']);
    assert(r == (value@.take(7) =~= seq!['B', 'e', 'a', 'r', 'e', 'r', ' ']));
    r
}

} // verus!
