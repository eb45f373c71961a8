use vstd::prelude::*;

use crate::user::Role;

verus! {

/// The claims carried inside an issued token: who the bearer is and
/// when the token lapses (seconds since the epoch).
#[derive(Debug, PartialEq)]
pub struct Claims {
    pub sub: String,
    pub user_id: i32,
    pub role: Role,
    pub exp: usize,
}

/// The authenticated principal a protected workflow receives, as
/// extracted from a verified token.
#[derive(Clone, Debug, PartialEq)]
pub struct AuthUser {
    pub user_id: i32,
    pub username: String,
    pub role: Role,
}

impl Claims {
    /// The claims of a token issued now and valid for `validity`
    /// seconds.
    pub fn new(user_id: i32, username: String, role: Role, now: usize, validity: usize) -> (c:
        Claims)
        requires
            now + validity <= usize::MAX,
        ensures
            c == (Claims { sub: username, user_id, role, exp: (now + validity) as usize }),
    {
        Claims { sub: username, user_id, role, exp: now + validity }
    }
}

/// The principal a verified token's claims stand for.
pub fn auth_user_from_claims(claims: Claims) -> (r: AuthUser)
    ensures
        r.user_id == claims.user_id,
        r.username == claims.sub,
        r.role == claims.role,
{
    AuthUser { user_id: claims.user_id, username: claims.sub, role: claims.role }
}

/// The token inside an authorization header value: the part after the
/// `Bearer ` scheme prefix, if the header carries that scheme.
pub fn bearer_token(header: &str) -> (r: Option<&str>)
    ensures
        match r {
            Some(token) => header@.len() >= 7 && header@.subrange(0, 7) == "Bearer "@ && token@
                == header@.subrange(7, header@.len() as int),
            None => !(header@.len() >= 7 && header@.subrange(0, 7) == "Bearer "@),
        },
{
    let n = header.unicode_len();
    if n < 7 {
        return None;
    }
    let prefix = header.substring_char(0, 7).to_owned();
    if prefix == String::from_str("Bearer ") {
        Some(header.substring_char(7, n))
    } else {
        None
    }
}

} // verus!
