use base64::engine::general_purpose::{STANDARD, URL_SAFE_NO_PAD};
use base64::Engine;
use reddyt::routes::authentication::{
    login_response, logout_response, AuthenticationRequestError, CookieInstruction, SESSION_COOKIE_MAX_AGE_HOURS,
};
use reddyt::utils::extractors::authentication::{
    authenticate_claims, decode_basic_credentials, get_jwt_secret, issue_token, select_credentials,
    try_authenticate, try_authenticate_basic, try_authenticate_bearer, OptionalAuth, OptionalAuthError,
    PresentedCredentials, AUTH_EXPIRATION_HOURS, COOKIE_KEY, JWT_LEEWAY_SECONDS, JWT_SECRET_LENGTH,
};
use reddyt::utils::time::{utc_now, UtcDateTime};

const EMAIL: &str = "admin@example.com";
const PASSWORD: &str = "s3cret:with:colons";
const SECRET: &str = "0123456789abcdefghijklmnopqrstuv";

fn basic(email: &str, password: &str) -> String {
    STANDARD.encode(format!("{email}:{password}"))
}

fn at(seconds: i64) -> UtcDateTime {
    UtcDateTime { seconds, nanoseconds: 0 }
}

fn token_of(res: Result<OptionalAuth, OptionalAuthError>) -> Option<String> {
    res.ok().expect("no error expected").token().cloned()
}

fn payload(token: &str) -> serde_json::Value {
    let part = token.split('.').nth(1).expect("a JWT has a payload");
    serde_json::from_slice(&URL_SAFE_NO_PAD.decode(part).expect("base64url payload")).expect("JSON payload")
}

#[test]
fn select_prefers_basic_header() {
    match select_credentials(Some("Basic abc"), Some("cookie")) {
        PresentedCredentials::Basic(c) => assert_eq!(c, "abc"),
        _ => panic!("expected Basic credentials"),
    }
}

#[test]
fn select_bearer_header() {
    match select_credentials(Some("Bearer tok"), Some("cookie")) {
        PresentedCredentials::Bearer(t) => assert_eq!(t, "tok"),
        _ => panic!("expected a bearer token"),
    }
}

#[test]
fn select_falls_back_to_cookie() {
    match select_credentials(Some("Digest xyz"), Some("cookie")) {
        PresentedCredentials::Bearer(t) => assert_eq!(t, "cookie"),
        _ => panic!("expected the cookie"),
    }
    match select_credentials(None, Some("cookie")) {
        PresentedCredentials::Bearer(t) => assert_eq!(t, "cookie"),
        _ => panic!("expected the cookie"),
    }
}

#[test]
fn select_nothing() {
    assert!(matches!(select_credentials(None, None), PresentedCredentials::Absent));
    assert!(matches!(select_credentials(Some("basic abc"), None), PresentedCredentials::Absent));
}

#[test]
fn decode_basic_splits_at_first_colon() {
    let decoded = decode_basic_credentials(&basic(EMAIL, PASSWORD));
    assert_eq!(decoded, Some((EMAIL.to_string(), PASSWORD.to_string())));
}

#[test]
fn decode_basic_rejects_malformed_input() {
    assert_eq!(decode_basic_credentials("not base64!"), None);
    assert_eq!(decode_basic_credentials(&STANDARD.encode([0xffu8, 0x3a, 0x41])), None);
    assert_eq!(decode_basic_credentials(&STANDARD.encode("no-colon-here")), None);
}

#[test]
fn basic_with_admin_credentials_issues_jwt() {
    let now = at(1_700_000_000);
    let token = token_of(try_authenticate_basic(&basic(EMAIL, PASSWORD), EMAIL, PASSWORD, Some(now), Ok(SECRET)))
        .expect("authenticated");
    let claims = payload(&token);
    assert_eq!(claims["email"], EMAIL);
    assert_eq!(claims["exp"], 1_700_000_000 + 3600 * AUTH_EXPIRATION_HOURS);
}

#[test]
fn basic_with_wrong_credentials_is_unauthenticated() {
    let now = at(1_700_000_000);
    assert_eq!(token_of(try_authenticate_basic(&basic(EMAIL, "wrong"), EMAIL, PASSWORD, Some(now), Ok(SECRET))), None);
    assert_eq!(token_of(try_authenticate_basic(&basic("other@example.com", PASSWORD), EMAIL, PASSWORD, Some(now), Ok(SECRET))), None);
    assert_eq!(token_of(try_authenticate_basic("%%%", EMAIL, PASSWORD, Some(now), Ok(SECRET))), None);
}

#[test]
fn issue_token_expiration_out_of_range() {
    let res = issue_token(EMAIL, at(8_210_266_876_799), Ok(SECRET));
    assert!(matches!(res, Err(OptionalAuthError::JwtExpiration)));
}

#[test]
fn issue_token_negative_expiration_is_invalid_cast() {
    let res = issue_token(EMAIL, at(-100_000), Ok(SECRET));
    assert!(matches!(res, Err(OptionalAuthError::InvalidCast)));
}

#[test]
fn issued_token_authenticates_as_bearer() {
    let now = reddyt_now();
    let token = token_of(issue_token(EMAIL, now, Ok(SECRET))).expect("issued");
    assert_eq!(token_of(try_authenticate_bearer(&token, EMAIL, Some(reddyt_now()), Ok(SECRET))), Some(token.clone()));
    assert_eq!(token_of(try_authenticate_bearer(&token, "other@example.com", Some(reddyt_now()), Ok(SECRET))), None);
    assert_eq!(token_of(try_authenticate_bearer(&token, EMAIL, Some(reddyt_now()), Ok("another-secret"))), None);
    assert_eq!(token_of(try_authenticate_bearer("garbage", EMAIL, Some(reddyt_now()), Ok(SECRET))), None);
}

#[test]
fn expired_token_is_unauthenticated() {
    let token = token_of(issue_token(EMAIL, at(1_000_000), Ok(SECRET))).expect("issued");
    assert_eq!(token_of(try_authenticate_bearer(&token, EMAIL, Some(reddyt_now()), Ok(SECRET))), None);
}

fn reddyt_now() -> UtcDateTime {
    let seconds = std::time::SystemTime::now()
        .duration_since(std::time::UNIX_EPOCH)
        .expect("clock after the epoch")
        .as_secs() as i64;
    at(seconds)
}

#[test]
fn try_authenticate_dispatches() {
    let header = format!("Basic {}", basic(EMAIL, PASSWORD));
    let token = token_of(try_authenticate(Some(&header), None, EMAIL, PASSWORD, Ok(SECRET))).expect("basic login");
    let cookie_auth = try_authenticate(None, Some(&token), EMAIL, PASSWORD, Ok(SECRET));
    assert_eq!(token_of(cookie_auth), Some(token.clone()));
    let bearer = format!("Bearer {token}");
    assert_eq!(token_of(try_authenticate(Some(&bearer), None, EMAIL, PASSWORD, Ok(SECRET))), Some(token));
    assert_eq!(token_of(try_authenticate(None, None, EMAIL, PASSWORD, Ok(SECRET))), None);
}

#[test]
fn authenticate_claims_compares_email() {
    assert_eq!(authenticate_claims("t", EMAIL, Some(EMAIL.to_string())).token().cloned(), Some("t".to_string()));
    assert_eq!(authenticate_claims("t", EMAIL, Some("x@y.z".to_string())).token(), None);
    assert_eq!(authenticate_claims("t", EMAIL, None).token(), None);
}

#[test]
fn jwt_secret_generation() {
    let fresh = get_jwt_secret(None).expect("randomness");
    assert_eq!(fresh.len(), JWT_SECRET_LENGTH);
    assert!(fresh.chars().all(|c| c.is_ascii_alphanumeric()));
    assert_eq!(get_jwt_secret(Some("kept".to_string())).expect("randomness"), "kept");
}

#[test]
fn optional_auth_accessors() {
    let unauth = OptionalAuth::unauthenticated();
    assert!(!unauth.is_authenticated());
    assert_eq!(unauth.token(), None);
    let auth = OptionalAuth::authenticated("jwt".to_string());
    assert!(auth.is_authenticated());
    assert_eq!(auth.token().map(String::as_str), Some("jwt"));
}

#[test]
fn login_sets_session_cookie() {
    let auth = OptionalAuth::authenticated("jwt".to_string());
    match login_response(&auth, true) {
        Ok(CookieInstruction::Store { name, value, path, http_only, secure, max_age_hours }) => {
            assert_eq!(name, COOKIE_KEY);
            assert_eq!(value, "jwt");
            assert_eq!(path, "/");
            assert!(http_only);
            assert!(secure);
            assert_eq!(max_age_hours, SESSION_COOKIE_MAX_AGE_HOURS);
            assert_eq!(max_age_hours, 3);
        },
        _ => panic!("expected a session cookie"),
    }
    assert!(matches!(login_response(&OptionalAuth::unauthenticated(), false), Err(AuthenticationRequestError::Unauthorized)));
}

#[test]
fn logout_removes_session_cookie() {
    match logout_response(&OptionalAuth::authenticated("jwt".to_string())) {
        Ok(CookieInstruction::Remove { name }) => assert_eq!(name, COOKIE_KEY),
        _ => panic!("expected the cookie removal"),
    }
    let refused = logout_response(&OptionalAuth::unauthenticated());
    assert!(matches!(refused, Err(AuthenticationRequestError::Unauthorized)));
    assert_eq!(AuthenticationRequestError::Unauthorized.status_code(), 401);
}

#[test]
fn basic_login_without_clock_reports_expiration_error() {
    let res = try_authenticate_basic(&basic(EMAIL, PASSWORD), EMAIL, PASSWORD, None, Ok(SECRET));
    assert!(matches!(res, Err(OptionalAuthError::JwtExpiration)));
    let refused = try_authenticate_basic(&basic(EMAIL, "wrong"), EMAIL, PASSWORD, None, Ok(SECRET));
    assert_eq!(token_of(refused), None);
}

#[test]
fn bearer_expiry_boundary_with_leeway() {
    let issued = 1_700_000_000;
    let token = token_of(issue_token(EMAIL, at(issued), Ok(SECRET))).expect("issued");
    let limit = issued + 3600 * AUTH_EXPIRATION_HOURS + JWT_LEEWAY_SECONDS;
    assert_eq!(token_of(try_authenticate_bearer(&token, EMAIL, Some(at(limit)), Ok(SECRET))), Some(token.clone()));
    assert_eq!(token_of(try_authenticate_bearer(&token, EMAIL, Some(at(limit + 1)), Ok(SECRET))), None);
    let res = try_authenticate_bearer(&token, EMAIL, None, Ok(SECRET));
    assert!(matches!(res, Err(OptionalAuthError::JwtExpiration)));
    assert_eq!(token_of(try_authenticate_bearer("garbage", EMAIL, None, Ok(SECRET))), None);
}

#[test]
fn bearer_token_with_non_integer_exp_is_refused() {
    let mut claims = serde_json::Map::new();
    claims.insert("email".to_string(), serde_json::Value::from(EMAIL));
    claims.insert("exp".to_string(), serde_json::Value::from(1.0e12));
    let token = jsonwebtoken::encode(
        &jsonwebtoken::Header::default(),
        &claims,
        &jsonwebtoken::EncodingKey::from_secret(SECRET.as_bytes()),
    )
    .expect("encodes");
    assert_eq!(token_of(try_authenticate_bearer(&token, EMAIL, Some(reddyt_now()), Ok(SECRET))), None);
}

#[test]
fn clock_reading_is_after_the_epoch() {
    let now = utc_now().expect("the clock is set after the epoch");
    assert!(now.seconds > 1_600_000_000);
    assert!(now.nanoseconds < 1_000_000_000);
}
