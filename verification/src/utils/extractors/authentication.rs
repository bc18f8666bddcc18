//! Optional authentication of a request: HTTP Basic credentials checked
//! against the configured administrator, or a bearer JWT issued earlier.

use jsonwebtoken::errors::Error as JwtError;
use jsonwebtoken::{decode, encode, Algorithm, DecodingKey, EncodingKey, Header, Validation};
use rand::distr::{Alphanumeric, SampleString};
use rand::rand_core::OsError;
use rand::rngs::{OsRng, StdRng};
use rand::SeedableRng;
use vstd::prelude::*;
use vstd::utf8::{decode_utf8, valid_utf8};

use crate::utils::encoding::{base64_standard_decode, base64_standard_decoding, string_from_utf8};
use crate::utils::strings::{split_once, split_once_spec, starts_with, str_eq, strip_prefix};
use crate::utils::time::{
    checked_add_hours, chrono_checked_add_hours, is_regular, system_clock_since_epoch, utc_of_reading, ClockReading,
    UtcDateTime, CHRONO_SAFE_SECONDS,
};

verus! {

/// The authentication cookie key.
pub const COOKIE_KEY: &'static str = "authentication";

/// How long until the authentication session expires.
pub const AUTH_EXPIRATION_HOURS: i64 = 3;

/// The length of the generated JWT secret.
pub const JWT_SECRET_LENGTH: usize = 32;

#[verifier::external_type_specification]
#[verifier::external_body]
pub struct ExOsError(OsError);

#[verifier::external_type_specification]
#[verifier::external_body]
pub struct ExJwtError(JwtError);

#[verifier::external_type_specification]
#[verifier::external_body]
pub struct ExStdRng(StdRng);

/// Any error that may occur while authenticating a request.
#[derive(Debug)]
pub enum OptionalAuthError {
    /// The application context could not be loaded.
    MissingContext,
    /// No JWT secret could be generated.
    JwtSecret(OsError),
    /// No expiration date could be obtained for the JWT.
    JwtExpiration,
    /// The JWT could not be encoded.
    JwtEncoding(JwtError),
    /// A cast between two numeric types failed.
    InvalidCast,
}

/// The authentication state of a request: the issued JWT when the request
/// is authenticated, nothing otherwise; and, when the state was decided from
/// the system clock, the reading it was decided at.
pub struct OptionalAuth {
    token: Option<String>,
    decided_at: Option<ClockReading>,
}

impl View for OptionalAuth {
    type V = Option<Seq<char>>;

    closed spec fn view(&self) -> Option<Seq<char>> {
        match self.token {
            Some(t) => Some(t@),
            None => None,
        }
    }
}

impl OptionalAuth {
    /// The reading of the system clock that this state was decided at, if
    /// it was decided from the clock.
    pub closed spec fn decided_at(self) -> Option<ClockReading> {
        self.decided_at
    }

    /// Constructor for unauthenticated requests.
    pub fn unauthenticated() -> (auth: Self)
        ensures
            auth@ is None,
            auth.decided_at() is None,
    {
        OptionalAuth { token: None, decided_at: None }
    }

    /// Constructor for authenticated requests.
    pub fn authenticated(token: String) -> (auth: Self)
        ensures
            auth@ == Some(token@),
            auth.decided_at() is None,
    {
        OptionalAuth { token: Some(token), decided_at: None }
    }

    /// The same state, recorded as decided at a reading of the system clock.
    pub(crate) fn decided_at_reading(self, reading: ClockReading) -> (auth: Self)
        ensures
            auth@ == self@,
            auth.decided_at() == Some(reading),
    {
        OptionalAuth { token: self.token, decided_at: Some(reading) }
    }

    /// The issued JWT if the request is authenticated, otherwise `None`.
    pub fn token(&self) -> (token: Option<&String>)
        ensures
            match token {
                Some(t) => self@ == Some(t@),
                None => self@ is None,
            },
    {
        self.token.as_ref()
    }

    /// Whether the request is authenticated.
    pub fn is_authenticated(&self) -> (res: bool)
        ensures
            res == self@ is Some,
    {
        self.token.is_some()
    }
}

/// What an authentication attempt comes to, errors told apart by kind.
pub enum AuthOutcome {
    Unauthenticated,
    Authenticated(Seq<char>),
    MissingContext,
    SecretUnavailable,
    ExpirationOutOfRange,
    EncodingFailed,
    InvalidCast,
}

/// The outcome that a result of an authentication attempt stands for.
pub open spec fn outcome(res: Result<OptionalAuth, OptionalAuthError>) -> AuthOutcome {
    match res {
        Ok(auth) => match auth@ {
            Some(token) => AuthOutcome::Authenticated(token),
            None => AuthOutcome::Unauthenticated,
        },
        Err(err) => match err {
            OptionalAuthError::MissingContext => AuthOutcome::MissingContext,
            OptionalAuthError::JwtSecret(_) => AuthOutcome::SecretUnavailable,
            OptionalAuthError::JwtExpiration => AuthOutcome::ExpirationOutOfRange,
            OptionalAuthError::JwtEncoding(_) => AuthOutcome::EncodingFailed,
            OptionalAuthError::InvalidCast => AuthOutcome::InvalidCast,
        },
    }
}

/// The JWT secret, if one could be obtained.
pub open spec fn secret_view(secret: Result<&str, OsError>) -> Option<Seq<char>> {
    match secret {
        Ok(s) => Some(s@),
        Err(_) => None,
    }
}

pub open spec fn is_ascii_alphanumeric(c: char) -> bool {
    ('a' <= c <= 'z') || ('A' <= c <= 'Z') || ('0' <= c <= '9')
}

/// Calls `StdRng::try_from_rng(&mut OsRng)`; whether the operating system
/// provides randomness is not known in advance.
#[verifier::external_body]
fn seed_std_rng() -> (res: Result<StdRng, OsError>) {
    StdRng::try_from_rng(&mut OsRng)
}

/// Calls `Alphanumeric.sample_string`. As `rand` documents, the result has
/// `len` characters, each an ASCII letter or digit; which ones is chance.
#[verifier::external_body]
fn sample_alphanumeric(rng: &mut StdRng, len: usize) -> (s: String)
    ensures
        s@.len() == len,
        forall|i: int| 0 <= i < len ==> is_ascii_alphanumeric(#[trigger] s@[i]),
{
    Alphanumeric.sample_string(rng, len)
}

/// Obtains the secret used to sign and check JWTs: the one already in use
/// when there is one (`cached`), otherwise a fresh random alphanumeric
/// string. A generator is seeded from the operating system first in either
/// case, and its failure is reported.
pub fn get_jwt_secret(cached: Option<String>) -> (res: Result<String, OsError>)
    ensures
        res matches Ok(secret) ==> match cached {
            Some(c) => secret@ == c@,
            None => secret@.len() == JWT_SECRET_LENGTH && forall|i: int|
                0 <= i < JWT_SECRET_LENGTH ==> is_ascii_alphanumeric(#[trigger] secret@[i]),
        },
{
    let mut rng = match seed_std_rng() {
        Ok(rng) => rng,
        Err(err) => return Err(err),
    };
    match cached {
        Some(secret) => Ok(secret),
        None => Ok(sample_alphanumeric(&mut rng, JWT_SECRET_LENGTH)),
    }
}

/// The HS256 JWT that `jsonwebtoken::encode` produces with the default header
/// for the claims `{"email": email, "exp": exp}` and the bytes of `secret`
/// as key (`None` when encoding fails).
pub uninterp spec fn jwt_hs256_token(email: Seq<char>, exp: usize, secret: Seq<char>) -> Option<Seq<char>>;

/// The `email` and `exp` claims that `jsonwebtoken::decode` yields for
/// `token` with `Validation::new(Algorithm::HS256)` apart from the expiry
/// comparison with the clock (`validate_exp` off), and the bytes of
/// `secret` as key: `None` unless the header names HS256, the signature
/// checks out under the secret, the payload is a JSON object with a numeric
/// `exp` that fits a `u64` and no `aud`, and its `email` is a string.
pub uninterp spec fn jwt_hs256_claims(token: Seq<char>, secret: Seq<char>) -> Option<(Seq<char>, u64)>;

/// Calls `jsonwebtoken::encode` with `Header::default()` (HS256), the claims
/// `email` and `exp` as a JSON object, and `EncodingKey::from_secret`. The
/// contract ties the result to `jwt_hs256_token` of the arguments; and, as
/// the crate's HMAC signing and verification show, a token it produced
/// decodes under the same secret to the claims it was made from. Its
/// source shows that this call never fails: the key is an HMAC key as the
/// header's algorithm asks, the header and a map of a string and an integer
/// serialise to JSON, and HMAC signing cannot fail.
#[verifier::external_body]
fn encode_claims(email: &str, exp: usize, secret: &str) -> (res: Result<String, JwtError>)
    ensures
        res is Ok,
        match res {
            Ok(token) => jwt_hs256_token(email@, exp, secret@) == Some(token@)
                && jwt_hs256_claims(token@, secret@) == Some((email@, exp as u64)),
            Err(_) => jwt_hs256_token(email@, exp, secret@) is None,
        },
{
    let mut claims = serde_json::Map::new();
    claims.insert("email".to_string(), serde_json::Value::from(email));
    claims.insert("exp".to_string(), serde_json::Value::from(exp));
    encode(&Header::default(), &claims, &EncodingKey::from_secret(secret.as_bytes()))
}

/// Calls `jsonwebtoken::decode` with `Validation::new(Algorithm::HS256)`,
/// `validate_exp` turned off, and `DecodingKey::from_secret`; hands back the
/// `email` and `exp` claims of a token that passes. With the expiry check
/// off the crate never reads the clock, so the result is a function of the
/// token and the secret: `jwt_hs256_claims`.
#[verifier::external_body]
fn decode_claims(token: &str, secret: &str) -> (claims: Option<(String, u64)>)
    ensures
        match claims {
            Some((email, exp)) => jwt_hs256_claims(token@, secret@) == Some((email@, exp)),
            None => jwt_hs256_claims(token@, secret@) is None,
        },
{
    let mut validation = Validation::new(Algorithm::HS256);
    validation.validate_exp = false;
    match decode::<serde_json::Map<String, serde_json::Value>>(token, &DecodingKey::from_secret(secret.as_bytes()), &validation) {
        Ok(mut data) => match (data.claims.remove("email"), data.claims.get("exp").and_then(serde_json::Value::as_u64)) {
            (Some(serde_json::Value::String(email)), Some(exp)) => Some((email, exp)),
            _ => None,
        },
        Err(_) => None,
    }
}

/// The email and password of an HTTP Basic credential string: Base64, then
/// UTF-8, then split at the first colon.
pub open spec fn basic_credentials(encoded: Seq<char>) -> Option<(Seq<char>, Seq<char>)> {
    match base64_standard_decoding(encoded) {
        Some(bytes) => if valid_utf8(bytes) {
            split_once_spec(decode_utf8(bytes), ':')
        } else {
            None
        },
        None => None,
    }
}

/// Decodes an HTTP Basic credential string into its email and password.
pub fn decode_basic_credentials(encoded: &str) -> (res: Option<(String, String)>)
    ensures
        match res {
            Some((email, password)) => basic_credentials(encoded@) == Some((email@, password@)),
            None => basic_credentials(encoded@) is None,
        },
{
    let bytes = match base64_standard_decode(encoded) {
        Some(bytes) => bytes,
        None => return None,
    };
    let decoded = match string_from_utf8(bytes) {
        Some(decoded) => decoded,
        None => return None,
    };
    split_once(decoded.as_str(), ':')
}

/// What issuing a JWT for `email` at time `now` comes to.
pub open spec fn issue_outcome(email: Seq<char>, now: UtcDateTime, secret: Option<Seq<char>>) -> AuthOutcome {
    match chrono_checked_add_hours(now, AUTH_EXPIRATION_HOURS) {
        None => AuthOutcome::ExpirationOutOfRange,
        Some(expiration) => if expiration.seconds < 0 || expiration.seconds > usize::MAX {
            AuthOutcome::InvalidCast
        } else {
            match secret {
                None => AuthOutcome::SecretUnavailable,
                Some(key) => match jwt_hs256_token(email, expiration.seconds as usize, key) {
                    Some(token) => AuthOutcome::Authenticated(token),
                    None => AuthOutcome::EncodingFailed,
                },
            }
        },
    }
}

/// The token is the JWT of `email` signed with `secret` whose expiration
/// lies `AUTH_EXPIRATION_HOURS` hours after `now`, and it decodes under that
/// secret to exactly these claims.
pub open spec fn expires_after(token: Seq<char>, email: Seq<char>, now: UtcDateTime, secret: Option<Seq<char>>) -> bool {
    exists|exp: usize|
        exp == now.seconds + 3600 * AUTH_EXPIRATION_HOURS && secret is Some && #[trigger] jwt_hs256_token(email, exp, secret->0)
            == Some(token) && jwt_hs256_claims(token, secret->0) == Some((email, exp as u64))
}

/// What a Basic authentication attempt comes to, at time `now` (`None` when
/// the clock cannot be read).
pub open spec fn basic_outcome(
    encoded: Seq<char>,
    admin_email: Seq<char>,
    admin_password: Seq<char>,
    now: Option<UtcDateTime>,
    secret: Option<Seq<char>>,
) -> AuthOutcome {
    if basic_credentials(encoded) == Some((admin_email, admin_password)) {
        match now {
            Some(at) => issue_outcome(admin_email, at, secret),
            None => AuthOutcome::ExpirationOutOfRange,
        }
    } else {
        AuthOutcome::Unauthenticated
    }
}

/// A time at which a token can be issued: a regular instant from the epoch
/// on, within the range this library relies on `chrono` for, whose expiry
/// `AUTH_EXPIRATION_HOURS` later fits a `usize`.
pub open spec fn issuable_at(at: UtcDateTime) -> bool {
    &&& is_regular(at)
    &&& 0 <= at.seconds <= CHRONO_SAFE_SECONDS
    &&& at.seconds + 3600 * AUTH_EXPIRATION_HOURS <= usize::MAX
}

/// A reading of the clock: when there is one, it lies after the UNIX epoch
/// and within a second's nanoseconds.
pub open spec fn clock_reading(now: Option<UtcDateTime>) -> bool {
    now matches Some(at) ==> at.seconds >= 0 && is_regular(at)
}

/// An error that reports a missing secret carries the error that the secret
/// came with.
pub open spec fn secret_error_kept(res: Result<OptionalAuth, OptionalAuthError>, jwt_secret: Result<&str, OsError>) -> bool {
    res matches Err(OptionalAuthError::JwtSecret(e)) ==> jwt_secret == Err::<&str, OsError>(e)
}

/// Issues a JWT for `admin_email` that expires `AUTH_EXPIRATION_HOURS` after
/// `now`.
pub fn issue_token(admin_email: &str, now: UtcDateTime, jwt_secret: Result<&str, OsError>) -> (res: Result<OptionalAuth, OptionalAuthError>)
    ensures
        outcome(res) == issue_outcome(admin_email@, now, secret_view(jwt_secret)),
        secret_error_kept(res, jwt_secret),
        outcome(res) != AuthOutcome::EncodingFailed,
        is_regular(now) ==> (outcome(res) matches AuthOutcome::Authenticated(token) ==> expires_after(
            token,
            admin_email@,
            now,
            secret_view(jwt_secret),
        )),
        is_regular(now) ==> (outcome(res) matches AuthOutcome::Authenticated(token) ==> {
            &&& jwt_secret matches Ok(key)
            &&& jwt_hs256_claims(token, key@) matches Some((email, exp))
            &&& email == admin_email@
            &&& exp == now.seconds + 3600 * AUTH_EXPIRATION_HOURS
        }),
        issuable_at(now) && jwt_secret is Ok ==> outcome(res) is Authenticated,
{
    let expiration = match checked_add_hours(now, AUTH_EXPIRATION_HOURS) {
        Some(expiration) => expiration,
        None => return Err(OptionalAuthError::JwtExpiration),
    };
    if expiration.seconds < 0 {
        return Err(OptionalAuthError::InvalidCast);
    }
    let seconds = expiration.seconds as u64;
    if seconds as u128 > usize::MAX as u128 {
        return Err(OptionalAuthError::InvalidCast);
    }
    let exp = seconds as usize;
    let secret = match jwt_secret {
        Ok(secret) => secret,
        Err(err) => return Err(OptionalAuthError::JwtSecret(err)),
    };
    match encode_claims(admin_email, exp, secret) {
        Ok(token) => Ok(OptionalAuth::authenticated(token)),
        Err(err) => Err(OptionalAuthError::JwtEncoding(err)),
    }
}

/// Takes an HTTP Basic credential string (RFC 7617): when it decodes to the
/// administrator's email and password, a JWT is issued at the time `now`
/// (an error when the clock could not be read); any other input, malformed
/// or not, leaves the request unauthenticated.
pub fn try_authenticate_basic(
    user_credentials: &str,
    admin_email: &str,
    admin_password: &str,
    now: Option<UtcDateTime>,
    jwt_secret: Result<&str, OsError>,
) -> (res: Result<OptionalAuth, OptionalAuthError>)
    ensures
        outcome(res) == basic_outcome(user_credentials@, admin_email@, admin_password@, now, secret_view(jwt_secret)),
        secret_error_kept(res, jwt_secret),
        outcome(res) != AuthOutcome::EncodingFailed,
        now matches Some(at) ==> (is_regular(at) ==> (outcome(res) matches AuthOutcome::Authenticated(token) ==> expires_after(
            token,
            admin_email@,
            at,
            secret_view(jwt_secret),
        ))),
        basic_credentials(user_credentials@) != Some((admin_email@, admin_password@)) ==> outcome(res)
            == AuthOutcome::Unauthenticated,
        outcome(res) matches AuthOutcome::Authenticated(token) ==> {
            &&& now matches Some(at)
            &&& jwt_secret matches Ok(key)
            &&& (is_regular(at) ==> (jwt_hs256_claims(token, key@) matches Some((email, exp)) && email == admin_email@
                && exp == at.seconds + 3600 * AUTH_EXPIRATION_HOURS))
        },
        basic_credentials(user_credentials@) == Some((admin_email@, admin_password@)) && (now matches Some(at)
            && issuable_at(at)) && jwt_secret is Ok ==> outcome(res) is Authenticated,
{
    let (email, password) = match decode_basic_credentials(user_credentials) {
        Some(parts) => parts,
        None => return Ok(OptionalAuth::unauthenticated()),
    };
    if !str_eq(email.as_str(), admin_email) || !str_eq(password.as_str(), admin_password) {
        return Ok(OptionalAuth::unauthenticated());
    }
    match now {
        Some(at) => issue_token(admin_email, at, jwt_secret),
        None => Err(OptionalAuthError::JwtExpiration),
    }
}

/// How many seconds past its `exp` claim a token is still accepted (the
/// default leeway of `jsonwebtoken::Validation`).
pub const JWT_LEEWAY_SECONDS: i64 = 60;

/// Whether a token with the expiration `exp` has expired at `now`, as
/// `jsonwebtoken` validates it: `exp` lies more than the leeway before now.
pub open spec fn token_expired(exp: u64, now: UtcDateTime) -> bool {
    exp < now.seconds - JWT_LEEWAY_SECONDS
}

/// What a bearer authentication attempt comes to at time `now` (`None` when
/// the clock cannot be read): the token must decode under the secret, be
/// unexpired, and carry the administrator's email.
pub open spec fn bearer_outcome(
    token: Seq<char>,
    admin_email: Seq<char>,
    now: Option<UtcDateTime>,
    secret: Option<Seq<char>>,
) -> AuthOutcome {
    match secret {
        None => AuthOutcome::SecretUnavailable,
        Some(key) => match jwt_hs256_claims(token, key) {
            None => AuthOutcome::Unauthenticated,
            Some((email, exp)) => match now {
                None => AuthOutcome::ExpirationOutOfRange,
                Some(at) => if !token_expired(exp, at) && email == admin_email {
                    AuthOutcome::Authenticated(token)
                } else {
                    AuthOutcome::Unauthenticated
                },
            },
        },
    }
}

/// Decides a bearer authentication from the email claim of the decoded,
/// unexpired token: the request is authenticated with the token exactly
/// when the claim is the administrator's email.
pub fn authenticate_claims(token: &str, admin_email: &str, claims_email: Option<String>) -> (auth: OptionalAuth)
    ensures
        auth@ == (if (match claims_email { Some(e) => e@ == admin_email@, None => false }) {
            Some(token@)
        } else {
            None::<Seq<char>>
        }),
{
    match claims_email {
        Some(email) => if str_eq(email.as_str(), admin_email) {
            OptionalAuth::authenticated(token.to_string())
        } else {
            OptionalAuth::unauthenticated()
        },
        None => OptionalAuth::unauthenticated(),
    }
}

/// Takes a bearer token, i.e. a JWT: when it decodes under the secret, has
/// not expired at `now` and its email claim is the administrator's, the
/// request is authenticated with it; otherwise it is not. Reading the clock
/// is needed only for a token that decodes.
pub fn try_authenticate_bearer(
    token: &str,
    admin_email: &str,
    now: Option<UtcDateTime>,
    jwt_secret: Result<&str, OsError>,
) -> (res: Result<OptionalAuth, OptionalAuthError>)
    ensures
        outcome(res) == bearer_outcome(token@, admin_email@, now, secret_view(jwt_secret)),
        secret_error_kept(res, jwt_secret),
        jwt_secret matches Ok(key) ==> match jwt_hs256_claims(token@, key@) {
            None => outcome(res) == AuthOutcome::Unauthenticated,
            Some((email, exp)) => match now {
                None => res matches Err(OptionalAuthError::JwtExpiration),
                Some(at) => outcome(res) == (if email == admin_email@ && at.seconds <= exp + JWT_LEEWAY_SECONDS {
                    AuthOutcome::Authenticated(token@)
                } else {
                    AuthOutcome::Unauthenticated
                }),
            },
        },
{
    let secret = match jwt_secret {
        Ok(secret) => secret,
        Err(err) => return Err(OptionalAuthError::JwtSecret(err)),
    };
    let (email, exp) = match decode_claims(token, secret) {
        Some(claims) => claims,
        None => return Ok(OptionalAuth::unauthenticated()),
    };
    let at = match now {
        Some(at) => at,
        None => return Err(OptionalAuthError::JwtExpiration),
    };
    if (exp as i128) < (at.seconds as i128) - (JWT_LEEWAY_SECONDS as i128) {
        return Ok(OptionalAuth::unauthenticated());
    }
    Ok(authenticate_claims(token, admin_email, Some(email)))
}

} // verus!

verus! {

/// The credentials that a request presents, in the order they are tried.
pub enum PresentedCredentials {
    /// An `Authorization: Basic ...` header; holds what follows the scheme.
    Basic(String),
    /// An `Authorization: Bearer ...` header, or else the authentication
    /// cookie; holds the token.
    Bearer(String),
    /// Neither.
    Absent,
}

/// The characters of presented credentials.
pub enum CredentialsView {
    Basic(Seq<char>),
    Bearer(Seq<char>),
    Absent,
}

impl View for PresentedCredentials {
    type V = CredentialsView;

    open spec fn view(&self) -> CredentialsView {
        match self {
            PresentedCredentials::Basic(c) => CredentialsView::Basic(c@),
            PresentedCredentials::Bearer(t) => CredentialsView::Bearer(t@),
            PresentedCredentials::Absent => CredentialsView::Absent,
        }
    }
}

pub open spec fn basic_prefix() -> Seq<char> {
    seq!['B', 'a', 's', 'i', 'c', ' ']
}

pub open spec fn bearer_prefix() -> Seq<char> {
    seq!['B', 'e', 'a', 'r', 'e', 'r', ' ']
}

/// The characters of an optional string slice.
pub open spec fn option_str_view(s: Option<&str>) -> Option<Seq<char>> {
    match s {
        Some(t) => Some(t@),
        None => None,
    }
}

/// Which credentials a request presents: a Basic `Authorization` header,
/// else a Bearer one, else the authentication cookie, else none.
pub open spec fn selected_credentials(header: Option<Seq<char>>, cookie: Option<Seq<char>>) -> CredentialsView {
    let from_cookie = match cookie {
        Some(c) => CredentialsView::Bearer(c),
        None => CredentialsView::Absent,
    };
    match header {
        Some(h) => if starts_with(h, basic_prefix()) {
            CredentialsView::Basic(h.skip(basic_prefix().len() as int))
        } else if starts_with(h, bearer_prefix()) {
            CredentialsView::Bearer(h.skip(bearer_prefix().len() as int))
        } else {
            from_cookie
        },
        None => from_cookie,
    }
}

/// Picks the credentials to try from the `Authorization` header value and
/// the authentication cookie value.
pub fn select_credentials(header: Option<&str>, cookie: Option<&str>) -> (res: PresentedCredentials)
    ensures
        res@ == selected_credentials(option_str_view(header), option_str_view(cookie)),
{
    proof {
        reveal_strlit("Basic ");
        reveal_strlit("Bearer ");
        assert("Basic "@ =~= basic_prefix());
        assert("Bearer "@ =~= bearer_prefix());
    }
    if let Some(h) = header {
        if let Some(rest) = strip_prefix(h, "Basic ") {
            return PresentedCredentials::Basic(rest.to_string());
        }
        if let Some(rest) = strip_prefix(h, "Bearer ") {
            return PresentedCredentials::Bearer(rest.to_string());
        }
    }
    match cookie {
        Some(c) => PresentedCredentials::Bearer(c.to_string()),
        None => PresentedCredentials::Absent,
    }
}

/// The `Authorization` header takes precedence over the cookie: a header
/// with the Basic or Bearer scheme decides the credentials whatever the
/// cookie holds, and the cookie is taken as a bearer token only when the
/// header carries neither scheme. Basic credentials come only from a
/// header with that scheme, and what follows the scheme is kept whole.
pub proof fn lemma_header_precedes_cookie(header: Seq<char>, cookie: Option<Seq<char>>, other_cookie: Option<Seq<char>>)
    ensures
        starts_with(header, basic_prefix()) || starts_with(header, bearer_prefix()) ==> selected_credentials(
            Some(header),
            cookie,
        ) == selected_credentials(Some(header), other_cookie),
        !starts_with(header, basic_prefix()) && !starts_with(header, bearer_prefix()) ==> selected_credentials(
            Some(header),
            cookie,
        ) == selected_credentials(None, cookie),
        selected_credentials(None, cookie) == (match cookie {
            Some(c) => CredentialsView::Bearer(c),
            None => CredentialsView::Absent,
        }),
        selected_credentials(Some(header), cookie) matches CredentialsView::Basic(rest) ==> header == basic_prefix()
            + rest,
{
    if starts_with(header, basic_prefix()) {
        assert(header =~= basic_prefix() + header.skip(basic_prefix().len() as int));
    }
}

/// Authenticates a request, at the time `now` (`None` when the clock could
/// not be read), from its `Authorization` header value and its
/// authentication cookie value against the administrator's credentials.
/// Basic credentials with the administrator's email and password log in: a
/// JWT for the administrator is issued that expires `AUTH_EXPIRATION_HOURS`
/// after `now`. A bearer token or the cookie authenticates while it decodes
/// under the secret to the administrator's email and has not expired at
/// `now`, allowing the leeway. Without credentials the request is
/// unauthenticated.
pub fn try_authenticate_at(
    header: Option<&str>,
    cookie: Option<&str>,
    admin_email: &str,
    admin_password: &str,
    now: Option<UtcDateTime>,
    jwt_secret: Result<&str, OsError>,
) -> (res: Result<OptionalAuth, OptionalAuthError>)
    ensures
        selected_credentials(option_str_view(header), option_str_view(cookie)) matches CredentialsView::Basic(c)
            ==> outcome(res) == basic_outcome(c, admin_email@, admin_password@, now, secret_view(jwt_secret)),
        selected_credentials(option_str_view(header), option_str_view(cookie)) matches CredentialsView::Bearer(t)
            ==> outcome(res) == bearer_outcome(t, admin_email@, now, secret_view(jwt_secret)),
        selected_credentials(option_str_view(header), option_str_view(cookie)) is Absent
            ==> outcome(res) == AuthOutcome::Unauthenticated,
        secret_error_kept(res, jwt_secret),
        outcome(res) != AuthOutcome::EncodingFailed,
        // A login with anything but the administrator's credentials fails.
        selected_credentials(option_str_view(header), option_str_view(cookie)) matches CredentialsView::Basic(c)
            ==> (basic_credentials(c) != Some((admin_email@, admin_password@)) ==> outcome(res)
            == AuthOutcome::Unauthenticated),
        // A login issues the administrator a token that expires
        // `AUTH_EXPIRATION_HOURS` after the time of the request.
        selected_credentials(option_str_view(header), option_str_view(cookie)) is Basic ==> (outcome(res) matches AuthOutcome::Authenticated(token) ==> {
            &&& now matches Some(at)
            &&& jwt_secret matches Ok(key)
            &&& (is_regular(at) ==> {
                &&& expires_after(token, admin_email@, at, secret_view(jwt_secret))
                &&& jwt_hs256_claims(token, key@) matches Some((email, exp))
                &&& email == admin_email@
                &&& exp == at.seconds + 3600 * AUTH_EXPIRATION_HOURS
            })
        }),
        // The administrator's credentials log in whenever a token can be
        // issued at the time of the request and the secret is at hand.
        selected_credentials(option_str_view(header), option_str_view(cookie)) matches CredentialsView::Basic(c)
            ==> (basic_credentials(c) == Some((admin_email@, admin_password@)) && (now matches Some(at) && issuable_at(
            at,
        )) && jwt_secret is Ok ==> outcome(res) is Authenticated),
        // A token authenticates exactly when it decodes under the secret to
        // the administrator's email and its expiry, plus the leeway, is not
        // before the time of the request.
        selected_credentials(option_str_view(header), option_str_view(cookie)) matches CredentialsView::Bearer(t)
            ==> (jwt_secret matches Ok(key) ==> match jwt_hs256_claims(t, key@) {
            None => outcome(res) == AuthOutcome::Unauthenticated,
            Some((email, exp)) => match now {
                None => res matches Err(OptionalAuthError::JwtExpiration),
                Some(at) => outcome(res) == (if email == admin_email@ && at.seconds <= exp + JWT_LEEWAY_SECONDS {
                    AuthOutcome::Authenticated(t)
                } else {
                    AuthOutcome::Unauthenticated
                }),
            },
        }),
{
    match select_credentials(header, cookie) {
        PresentedCredentials::Basic(credentials) => try_authenticate_basic(
            credentials.as_str(),
            admin_email,
            admin_password,
            now,
            jwt_secret,
        ),
        PresentedCredentials::Bearer(token) => try_authenticate_bearer(token.as_str(), admin_email, now, jwt_secret),
        PresentedCredentials::Absent => Ok(OptionalAuth::unauthenticated()),
    }
}

/// Authenticates a request from its `Authorization` header value and its
/// authentication cookie value against the administrator's credentials, at
/// the time read from the system clock (see `try_authenticate_at`). Basic
/// credentials are checked, and a token issued, at that time; a bearer
/// token is checked against the JWT secret and that time. Without
/// credentials the request is unauthenticated.
pub fn try_authenticate(
    header: Option<&str>,
    cookie: Option<&str>,
    admin_email: &str,
    admin_password: &str,
    jwt_secret: Result<&str, OsError>,
) -> (res: Result<OptionalAuth, OptionalAuthError>)
    ensures
        selected_credentials(option_str_view(header), option_str_view(cookie)) matches CredentialsView::Basic(c)
            ==> exists|now: Option<UtcDateTime>| {
            &&& clock_reading(now)
            &&& outcome(res) == #[trigger] basic_outcome(c, admin_email@, admin_password@, now, secret_view(jwt_secret))
            &&& outcome(res) matches AuthOutcome::Authenticated(token) ==> (now matches Some(at) && expires_after(
                token,
                admin_email@,
                at,
                secret_view(jwt_secret),
            ))
        },
        selected_credentials(option_str_view(header), option_str_view(cookie)) matches CredentialsView::Bearer(t)
            ==> exists|now: Option<UtcDateTime>| {
            &&& clock_reading(now)
            &&& outcome(res) == #[trigger] bearer_outcome(t, admin_email@, now, secret_view(jwt_secret))
        },
        selected_credentials(option_str_view(header), option_str_view(cookie)) is Absent
            ==> outcome(res) == AuthOutcome::Unauthenticated,
        secret_error_kept(res, jwt_secret),
        outcome(res) != AuthOutcome::EncodingFailed,
        selected_credentials(option_str_view(header), option_str_view(cookie)) matches CredentialsView::Basic(c)
            ==> exists|now: Option<UtcDateTime>| {
            &&& clock_reading(now)
            &&& outcome(res) == #[trigger] basic_outcome(c, admin_email@, admin_password@, now, secret_view(jwt_secret))
            &&& (basic_credentials(c) == Some((admin_email@, admin_password@)) && (now matches Some(at) && issuable_at(
                at,
            )) && jwt_secret is Ok ==> outcome(res) is Authenticated)
            &&& (outcome(res) matches AuthOutcome::Authenticated(token) ==> (now matches Some(at) && jwt_secret matches Ok(
                key,
            ) && jwt_hs256_claims(token, key@) matches Some((email, exp)) && email == admin_email@ && exp
                == at.seconds + 3600 * AUTH_EXPIRATION_HOURS))
        },
        selected_credentials(option_str_view(header), option_str_view(cookie)) matches CredentialsView::Bearer(t)
            ==> exists|now: Option<UtcDateTime>| {
            &&& clock_reading(now)
            &&& outcome(res) == #[trigger] bearer_outcome(t, admin_email@, now, secret_view(jwt_secret))
            &&& (jwt_secret matches Ok(key) ==> (now matches Some(at) ==> (outcome(res) is Authenticated <==> (
            jwt_hs256_claims(t, key@) matches Some((email, exp)) && email == admin_email@ && at.seconds <= exp
                + JWT_LEEWAY_SECONDS))))
        },
        // A decision is recorded with the reading of the system clock it was
        // made at, and it is the one that reading calls for: a login issues a
        // token that expires `AUTH_EXPIRATION_HOURS` after that reading, and
        // a token is checked for expiry against that reading.
        res matches Ok(auth) ==> (auth.decided_at() matches Some(reading) && {
            let now = utc_of_reading(reading@);
            &&& clock_reading(now)
            &&& (selected_credentials(option_str_view(header), option_str_view(cookie)) matches CredentialsView::Basic(c)
                ==> outcome(res) == basic_outcome(c, admin_email@, admin_password@, now, secret_view(jwt_secret)))
            &&& (selected_credentials(option_str_view(header), option_str_view(cookie)) matches CredentialsView::Bearer(t)
                ==> outcome(res) == bearer_outcome(t, admin_email@, now, secret_view(jwt_secret)))
            &&& (selected_credentials(option_str_view(header), option_str_view(cookie)) is Basic ==> (outcome(
                res,
            ) matches AuthOutcome::Authenticated(token) ==> (now matches Some(at) && jwt_secret matches Ok(key)
                && jwt_hs256_claims(token, key@) matches Some((email, exp)) && email == admin_email@ && exp
                == at.seconds + 3600 * AUTH_EXPIRATION_HOURS)))
            &&& (selected_credentials(option_str_view(header), option_str_view(cookie)) matches CredentialsView::Bearer(t)
                ==> (jwt_secret matches Ok(key) ==> (now matches Some(at) ==> (outcome(res) is Authenticated <==> (
                jwt_hs256_claims(t, key@) matches Some((email, exp)) && email == admin_email@ && at.seconds <= exp
                    + JWT_LEEWAY_SECONDS)))))
        }),
{
    let reading = system_clock_since_epoch();
    let now = reading.utc();
    let res = match try_authenticate_at(header, cookie, admin_email, admin_password, now, jwt_secret) {
        Ok(auth) => Ok(auth.decided_at_reading(reading)),
        Err(err) => Err(err),
    };
    res
}

} // verus!

verus! {

/// Basic credentials authenticate only with the administrator's email and
/// password: any other decoding leaves the request unauthenticated.
pub proof fn lemma_basic_requires_admin_credentials(
    encoded: Seq<char>,
    admin_email: Seq<char>,
    admin_password: Seq<char>,
    now: Option<UtcDateTime>,
    secret: Option<Seq<char>>,
)
    ensures
        basic_credentials(encoded) != Some((admin_email, admin_password)) ==> basic_outcome(
            encoded,
            admin_email,
            admin_password,
            now,
            secret,
        ) == AuthOutcome::Unauthenticated,
        basic_outcome(encoded, admin_email, admin_password, now, secret) is Authenticated
            ==> basic_credentials(encoded) == Some((admin_email, admin_password)),
{
}

/// A Basic credential string whose Base64 decoding is the UTF-8 text
/// `email:password`, with a colon-free email, decodes to exactly that email
/// and password; with the administrator's values it is handled as a
/// successful login (a JWT is issued at the time of the request).
pub proof fn lemma_basic_credentials_round_trip(
    encoded: Seq<char>,
    email: Seq<char>,
    password: Seq<char>,
    now: UtcDateTime,
    secret: Option<Seq<char>>,
)
    requires
        crate::utils::strings::char_free(email, ':'),
        base64_standard_decoding(encoded) == Some(vstd::utf8::encode_utf8(email + seq![':'] + password)),
    ensures
        basic_credentials(encoded) == Some((email, password)),
        basic_outcome(encoded, email, password, Some(now), secret) == issue_outcome(email, now, secret),
{
    let text = email + seq![':'] + password;
    vstd::utf8::encode_utf8_valid_utf8(text);
    vstd::utf8::encode_utf8_decode_utf8(text);
    crate::utils::strings::lemma_split_once_concat(email, ':', password);
}

/// A token that expires `AUTH_EXPIRATION_HOURS` after a time decodes under
/// its secret to its email and to an expiry exactly that many hours, in
/// seconds, after that time.
pub proof fn lemma_expires_after_claims(token: Seq<char>, email: Seq<char>, now: UtcDateTime, secret: Seq<char>)
    requires
        expires_after(token, email, now, Some(secret)),
    ensures
        jwt_hs256_claims(token, secret) matches Some((claimed, exp)) && claimed == email && exp == now.seconds + 3600
            * AUTH_EXPIRATION_HOURS,
{
    let exp = choose|exp: usize|
        exp == now.seconds + 3600 * AUTH_EXPIRATION_HOURS && #[trigger] jwt_hs256_token(email, exp, secret)
            == Some(token) && jwt_hs256_claims(token, secret) == Some((email, exp as u64));
    assert(jwt_hs256_claims(token, secret) == Some((email, exp as u64)));
}

/// A bearer token authenticates only as itself, only when it decodes under
/// the secret to the administrator's email, and only before it expires.
pub proof fn lemma_bearer_authenticates_as_itself(
    token: Seq<char>,
    admin_email: Seq<char>,
    now: Option<UtcDateTime>,
    secret: Option<Seq<char>>,
)
    ensures
        bearer_outcome(token, admin_email, now, secret) is Authenticated ==> {
            &&& bearer_outcome(token, admin_email, now, secret) == AuthOutcome::Authenticated(token)
            &&& match (secret, now) {
                (Some(key), Some(at)) => match jwt_hs256_claims(token, key) {
                    Some((email, exp)) => email == admin_email && !token_expired(exp, at),
                    None => false,
                },
                _ => false,
            }
        },
{
}

/// The session: a JWT that decodes under the secret to an email and an
/// expiry `AUTH_EXPIRATION_HOURS` hours after some time (as a login at that
/// time issues it) authenticates a later bearer or cookie request for that
/// email until those hours and the leeway have passed; afterwards it does
/// not.
pub proof fn lemma_issued_token_admitted_until_expiry(
    token: Seq<char>,
    email: Seq<char>,
    secret: Seq<char>,
    issued_at: UtcDateTime,
    later: UtcDateTime,
)
    requires
        jwt_hs256_claims(token, secret) matches Some((claimed, exp)) && claimed == email && exp == issued_at.seconds
            + 3600 * AUTH_EXPIRATION_HOURS,
    ensures
        later.seconds <= issued_at.seconds + 3600 * AUTH_EXPIRATION_HOURS + JWT_LEEWAY_SECONDS ==> bearer_outcome(
            token,
            email,
            Some(later),
            Some(secret),
        ) == AuthOutcome::Authenticated(token),
        later.seconds > issued_at.seconds + 3600 * AUTH_EXPIRATION_HOURS + JWT_LEEWAY_SECONDS ==> bearer_outcome(
            token,
            email,
            Some(later),
            Some(secret),
        ) == AuthOutcome::Unauthenticated,
{
}

/// A bearer check is decided by the token's claims and the time alone: a
/// token for the administrator is refused only once its expiry plus the
/// leeway lies before the time of the request, so moving the request later
/// can only refuse it and moving it earlier can only admit it.
pub proof fn lemma_bearer_expiry_is_monotone(
    token: Seq<char>,
    admin_email: Seq<char>,
    secret: Seq<char>,
    earlier: UtcDateTime,
    later: UtcDateTime,
)
    requires
        earlier.seconds <= later.seconds,
    ensures
        bearer_outcome(token, admin_email, Some(later), Some(secret)) is Authenticated ==> bearer_outcome(
            token,
            admin_email,
            Some(earlier),
            Some(secret),
        ) == bearer_outcome(token, admin_email, Some(later), Some(secret)),
        bearer_outcome(token, admin_email, Some(later), Some(secret)) is Authenticated <==> (jwt_hs256_claims(
            token,
            secret,
        ) matches Some((email, exp)) && email == admin_email && later.seconds <= exp + JWT_LEEWAY_SECONDS),
{
}

} // verus!
