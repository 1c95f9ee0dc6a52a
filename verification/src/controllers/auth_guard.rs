//! Who is asking: the identity that a request carries.

use vstd::prelude::*;
use crate::app_state::AppState;
use crate::clock::unix_now;
use crate::error::ErrorKind;
use crate::models::user::Role;
use crate::token::{identity_in, token_payload, verified, verify};

verus! {

/// The caller of a request, as the session token names them.
#[derive(Clone, Copy, Debug, PartialEq, Eq, Structural)]
pub struct AuthUser {
    pub user_id: u128,
    pub role: Role,
}

/// The characters of a piece of text that may be missing.
pub open spec fn text_of(text: Option<&str>) -> Option<Seq<char>> {
    match text {
        Some(text) => Some(text@),
        None => None,
    }
}

/// The token that a request presents: the bearer token of its
/// `Authorization` header if it has one, else its `token` cookie.
pub open spec fn presented_token(bearer: Option<Seq<char>>, cookie: Option<Seq<char>>) -> Option<
    Seq<char>,
> {
    if bearer is Some {
        bearer
    } else {
        cookie
    }
}

/// Who a request is admitted as at `now`, or that it is unauthorized: it
/// must present a token, and the token must stand the check of
/// [`identity_in`]. A bearer token that fails is not made good by a cookie.
pub open spec fn admitted(
    bearer: Option<Seq<char>>,
    cookie: Option<Seq<char>>,
    secret: Seq<u8>,
    now: i64,
) -> Result<AuthUser, ErrorKind> {
    match presented_token(bearer, cookie) {
        Some(token) => verified(identity_in(token_payload(token, secret), now)),
        None => Err(ErrorKind::Unauthorized),
    }
}

impl AuthUser {
    /// Admits a request at `now`, given the bearer token of its
    /// `Authorization` header, if it has one, and the value of its `token`
    /// cookie, if it has one. See [`admitted`].
    pub fn from_request_parts_at(
        bearer: Option<&str>,
        cookie: Option<&str>,
        state: &AppState,
        now: i64,
    ) -> (result: Result<AuthUser, ErrorKind>)
        ensures
            result == admitted(text_of(bearer), text_of(cookie), state.secret_bytes(), now),
    {
        let token = match bearer {
            Some(token) => token,
            None => match cookie {
                Some(token) => token,
                None => {
                    return Err(ErrorKind::Unauthorized);
                },
            },
        };
        verify(token, state.jwt_secret.as_str(), now)
    }

    /// Admits a request at the present moment, which is not before the
    /// epoch. See [`AuthUser::from_request_parts_at`], which does the work
    /// for a given moment.
    pub fn from_request_parts(bearer: Option<&str>, cookie: Option<&str>, state: &AppState) -> (result:
        Result<AuthUser, ErrorKind>)
        ensures
            exists|now: i64|
                result == #[trigger] admitted(
                    text_of(bearer),
                    text_of(cookie),
                    state.secret_bytes(),
                    now,
                ) && now >= 0,
    {
        let now = unix_now();
        let result = AuthUser::from_request_parts_at(bearer, cookie, state, now);
        assert(result == admitted(text_of(bearer), text_of(cookie), state.secret_bytes(), now) && now
            >= 0);
        result
    }
}

} // verus!
