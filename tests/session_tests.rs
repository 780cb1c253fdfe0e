use url_shortener::account::{check_credentials, hash_password, UserError};
use url_shortener::error::ApiError;
use url_shortener::guard::authenticate;
use url_shortener::session::{
    login, logout, refresh, refresh_token_lifetime, start_session, LONG_REFRESH_LIFETIME,
    SHORT_REFRESH_LIFETIME,
};
use url_shortener::token::{get_jwt_encoding_key, verify, KeyProvider, TokenError};

const NOW: u64 = 1_700_000_000;
const HOUR: u64 = 3600;
const DAY: u64 = 24 * HOUR;

fn fresh_key() -> [u8; 32] {
    get_jwt_encoding_key(&mut KeyProvider::new())
}

fn credentials_ok() -> Result<String, UserError> {
    Ok("Login successful".to_string())
}

#[test]
fn persistent_login_refreshed_after_two_hours() {
    let key = fresh_key();
    let stored = hash_password("pw").unwrap();
    let check = check_credentials(Ok(Some(&stored)), "pw");
    let tokens = login(&check, "alice", Some(true), NOW, &key).unwrap();
    assert_eq!(tokens.refresh_max_age, 30 * DAY);

    let later = NOW + 2 * HOUR;
    assert_eq!(verify(&tokens.access_token, &key, later).unwrap_err(), TokenError::TokenExpired);
    let rotated = refresh(Some(&tokens.refresh_token), later, &key).unwrap();
    let access = verify(&rotated.access_token, &key, later).unwrap();
    assert_eq!(access.sub, "alice");
    assert_eq!(access.exp, later + HOUR);
    let renewed = verify(&rotated.refresh_token, &key, later).unwrap();
    assert!(renewed.persistent);
    assert_eq!(renewed.exp, later + 30 * DAY);
    assert_eq!(rotated.refresh_max_age, 30 * DAY);
}

#[test]
fn registered_user_logs_in_as_self() {
    let key = fresh_key();
    let stored = hash_password("s3cret").unwrap();
    let check = check_credentials(Ok(Some(&stored)), "s3cret");
    assert_eq!(check.as_deref(), Ok("Login successful"));
    let tokens = login(&check, "bob", None, NOW, &key).unwrap();
    let claims = verify(&tokens.access_token, &key, NOW).unwrap();
    assert_eq!(claims.sub, "bob");
    assert!(!claims.persistent);
}

#[test]
fn ordinary_session_refresh_token_lasts_one_hour() {
    let key = fresh_key();
    let tokens = login(&credentials_ok(), "carol", Some(false), NOW, &key).unwrap();
    assert_eq!(tokens.refresh_max_age, HOUR);
    assert!(verify(&tokens.refresh_token, &key, NOW + HOUR).is_ok());
    assert_eq!(
        verify(&tokens.refresh_token, &key, NOW + HOUR + 1).unwrap_err(),
        TokenError::TokenExpired
    );
    assert!(verify(&tokens.access_token, &key, NOW + HOUR).is_ok());
    assert!(verify(&tokens.access_token, &key, NOW + HOUR + 1).is_err());
}

#[test]
fn persistent_refresh_token_lasts_thirty_days() {
    let key = fresh_key();
    let tokens = start_session("dave", true, NOW, &key).unwrap();
    assert!(verify(&tokens.refresh_token, &key, NOW + 30 * DAY).is_ok());
    assert!(verify(&tokens.refresh_token, &key, NOW + 30 * DAY + 1).is_err());
}

#[test]
fn login_failures_map_to_api_errors() {
    let key = fresh_key();
    let bad = login(&Err(UserError::InvalidCredentials), "erin", None, NOW, &key);
    assert!(matches!(bad, Err(ApiError::InvalidCredentials)));
    let broken = login(&Err(UserError::DatabaseError), "erin", None, NOW, &key);
    assert!(matches!(broken, Err(ApiError::InternalServerError)));
}

#[test]
fn refresh_without_cookie_is_refused() {
    let key = fresh_key();
    assert!(matches!(refresh(None, NOW, &key), Err(ApiError::Forbidden)));
}

#[test]
fn refresh_with_tampered_or_expired_cookie_is_refused() {
    let key = fresh_key();
    let tokens = login(&credentials_ok(), "frank", Some(false), NOW, &key).unwrap();
    let mut tampered = tokens.refresh_token.clone();
    tampered.insert(0, 'x');
    assert!(matches!(refresh(Some(&tampered), NOW, &key), Err(ApiError::Forbidden)));
    let expired_at = NOW + HOUR + 1;
    assert!(matches!(refresh(Some(&tokens.refresh_token), expired_at, &key), Err(ApiError::Forbidden)));
    assert!(matches!(refresh(Some(&tokens.refresh_token), NOW, &[1u8; 32]), Err(ApiError::Forbidden)));
}

#[test]
fn refresh_keeps_ordinary_persistence() {
    let key = fresh_key();
    let tokens = login(&credentials_ok(), "gina", None, NOW, &key).unwrap();
    let rotated = refresh(Some(&tokens.refresh_token), NOW + 60, &key).unwrap();
    let renewed = verify(&rotated.refresh_token, &key, NOW + 60).unwrap();
    assert!(!renewed.persistent);
    assert_eq!(renewed.exp, NOW + 60 + HOUR);
    assert_eq!(rotated.refresh_max_age, HOUR);
}

#[test]
fn refresh_lifetimes() {
    assert_eq!(refresh_token_lifetime(false), SHORT_REFRESH_LIFETIME);
    assert_eq!(refresh_token_lifetime(true), LONG_REFRESH_LIFETIME);
    assert_eq!(LONG_REFRESH_LIFETIME, 2_592_000);
}

#[test]
fn logout_with_and_without_cookie() {
    assert_eq!(logout(true), Ok("Logged out".to_string()));
    assert_eq!(logout(false), Err("/".to_string()));
}

#[test]
fn guard_accepts_valid_bearer_token() {
    let key = fresh_key();
    let tokens = start_session("hank", false, NOW, &key).unwrap();
    let user = authenticate(Some(&tokens.access_token), NOW + 5, &key).unwrap();
    assert_eq!(user.0.sub, "hank");
    assert_eq!(user.0.exp, NOW + HOUR);
}

#[test]
fn guard_rejects_missing_bad_or_expired_token() {
    let key = fresh_key();
    let tokens = start_session("ivy", false, NOW, &key).unwrap();
    assert!(matches!(authenticate(None, NOW, &key), Err(ApiError::AuthError)));
    assert!(matches!(authenticate(Some("junk"), NOW, &key), Err(ApiError::AuthError)));
    assert!(matches!(
        authenticate(Some(&tokens.access_token), NOW + HOUR + 1, &key),
        Err(ApiError::AuthError)
    ));
}
