//! The decisions of the `/authentication` routes: which cookie a login or a
//! logout sets, and when the request is refused.

use vstd::prelude::*;

use crate::utils::extractors::authentication::{selected_credentials, CredentialsView, OptionalAuth, COOKIE_KEY};

verus! {

/// How many hours the session cookie set on login lives.
pub const SESSION_COOKIE_MAX_AGE_HOURS: i64 = 3;

/// A client error of the authentication routes.
#[derive(Debug, Clone, Copy, PartialEq, Eq, Structural)]
pub enum AuthenticationRequestError {
    /// Invalid or not provided credentials.
    Unauthorized,
}

impl AuthenticationRequestError {
    /// The HTTP status code that answers this error.
    pub fn status_code(&self) -> (code: u16)
        ensures
            code == 401,
    {
        match self {
            AuthenticationRequestError::Unauthorized => 401,
        }
    }
}

/// What a response does with the session cookie.
pub enum CookieInstruction {
    /// Set the cookie `name` to `value`.
    Store {
        name: String,
        value: String,
        path: String,
        http_only: bool,
        secure: bool,
        max_age_hours: i64,
    },
    /// Remove the cookie `name`.
    Remove { name: String },
}

pub open spec fn root_path() -> Seq<char> {
    seq!['/']
}

/// `POST /login`: an authenticated request gets its JWT stored in an
/// HTTP-only session cookie on the root path (`secure` outside debug
/// builds); any other request is refused as unauthorized.
pub fn login_response(auth: &OptionalAuth, secure: bool) -> (res: Result<CookieInstruction, AuthenticationRequestError>)
    ensures
        match auth@ {
            Some(token) => res matches Ok(CookieInstruction::Store { name, value, path, http_only, secure: s, max_age_hours })
                && name@ == COOKIE_KEY@ && value@ == token && path@ == root_path() && http_only && s == secure
                && max_age_hours == SESSION_COOKIE_MAX_AGE_HOURS,
            None => res == Err::<CookieInstruction, AuthenticationRequestError>(AuthenticationRequestError::Unauthorized),
        },
{
    match auth.token() {
        Some(token) => {
            proof {
                reveal_strlit("/");
            }
            let path = "/".to_string();
            assert(path@ =~= root_path());
            Ok(CookieInstruction::Store {
                name: COOKIE_KEY.to_string(),
                value: token.clone(),
                path,
                http_only: true,
                secure,
                max_age_hours: SESSION_COOKIE_MAX_AGE_HOURS,
            })
        },
        None => Err(AuthenticationRequestError::Unauthorized),
    }
}

/// `POST /logout`: an authenticated request gets the session cookie
/// removed; any other request is refused as unauthorized.
pub fn logout_response(auth: &OptionalAuth) -> (res: Result<CookieInstruction, AuthenticationRequestError>)
    ensures
        match auth@ {
            Some(_) => res matches Ok(CookieInstruction::Remove { name }) && name@ == COOKIE_KEY@,
            None => res == Err::<CookieInstruction, AuthenticationRequestError>(AuthenticationRequestError::Unauthorized),
        },
{
    if auth.is_authenticated() {
        Ok(CookieInstruction::Remove { name: COOKIE_KEY.to_string() })
    } else {
        Err(AuthenticationRequestError::Unauthorized)
    }
}

/// The session cookie that a login stores comes back, on a later request
/// without an `Authorization` header, as that same bearer token.
pub proof fn lemma_session_cookie_is_bearer(token: Seq<char>)
    ensures
        selected_credentials(None, Some(token)) == CredentialsView::Bearer(token),
{
}

} // verus!
