//! Sessions: login, refresh-token rotation and logout. No session state is
//! kept here; all of it lives in the two tokens that the client holds.
use vstd::prelude::*;

use crate::account::{bcrypt_accepts, credential_outcome, UserError};
use crate::error::ApiError;
use crate::token::{issue, jwt_claims_of, jwt_token_of, verified_claims, verify, Claims, TokenError};

verus! {

/// Seconds for which an access token is accepted.
pub const ACCESS_TOKEN_LIFETIME: u64 = 3600;

/// Seconds for which the refresh token of an ordinary session is accepted.
pub const SHORT_REFRESH_LIFETIME: u64 = 3600;

/// Seconds for which the refresh token of a persistent session is accepted.
pub const LONG_REFRESH_LIFETIME: u64 = 30 * 24 * 3600;

/// Name of the cookie that carries the refresh token.
pub const REFRESH_COOKIE_NAME: &'static str = "refresh_token";

/// The lifetime of a refresh token, by the session's persistence.
pub open spec fn refresh_lifetime(persistent: bool) -> int {
    if persistent {
        LONG_REFRESH_LIFETIME as int
    } else {
        SHORT_REFRESH_LIFETIME as int
    }
}

/// The persistence that a login asks for; absent means not persistent.
pub open spec fn requested_persistence(persistent: Option<bool>) -> bool {
    match persistent {
        Some(p) => p,
        None => false,
    }
}

/// What a login or a refresh hands the client: an access token for the
/// response body, and a refresh token for a cookie whose max-age (and expiry,
/// counted from now) is `refresh_max_age` seconds.
#[derive(Debug)]
pub struct SessionTokens {
    pub access_token: String,
    pub refresh_token: String,
    pub refresh_max_age: u64,
}

/// `t` is the session of `sub` started at `now` under `key`: an access token
/// for one hour, and a refresh token for the lifetime that persistence gives,
/// both signed over exactly those claims.
pub open spec fn is_session_for(
    t: SessionTokens,
    sub: Seq<char>,
    persistent: bool,
    now: int,
    key: Seq<u8>,
) -> bool {
    let access_exp = now + ACCESS_TOKEN_LIFETIME;
    let refresh_exp = now + refresh_lifetime(persistent);
    &&& t.access_token@ == jwt_token_of(sub, access_exp, persistent, key)
    &&& jwt_claims_of(t.access_token@, key) == Some((sub, access_exp, persistent))
    &&& t.refresh_token@ == jwt_token_of(sub, refresh_exp, persistent, key)
    &&& jwt_claims_of(t.refresh_token@, key) == Some((sub, refresh_exp, persistent))
    &&& t.refresh_max_age == refresh_lifetime(persistent)
}

/// The refresh lifetime of a session, in seconds.
pub fn refresh_token_lifetime(persistent: bool) -> (r: u64)
    ensures
        r == refresh_lifetime(persistent),
{
    if persistent {
        LONG_REFRESH_LIFETIME
    } else {
        SHORT_REFRESH_LIFETIME
    }
}

/// Issues the access and refresh tokens of a session for `sub` starting at
/// `now`.
pub fn start_session(sub: &str, persistent: bool, now: u64, key: &[u8; 32]) -> (r: Result<
    SessionTokens,
    TokenError,
>)
    requires
        now + LONG_REFRESH_LIFETIME <= u64::MAX,
    ensures
        r is Ok,
        r matches Ok(t) ==> is_session_for(t, sub@, persistent, now as int, key@),
{
    let access_claims = Claims {
        sub: String::from_str(sub),
        exp: now + ACCESS_TOKEN_LIFETIME,
        persistent,
    };
    let access_token = issue(&access_claims, key)?;
    let max_age = refresh_token_lifetime(persistent);
    let refresh_claims = Claims { sub: access_claims.sub, exp: now + max_age, persistent };
    let refresh_token = issue(&refresh_claims, key)?;
    Ok(SessionTokens { access_token, refresh_token, refresh_max_age: max_age })
}

/// Answers a login, given the outcome of the credential check: on success a
/// new session for the username, with the persistence asked for. A failure to
/// sign would answer `CannotGenerateToken`; signing cannot fail.
pub fn login(
    credentials: &Result<String, UserError>,
    username: &str,
    persistent: Option<bool>,
    now: u64,
    key: &[u8; 32],
) -> (r: Result<SessionTokens, ApiError>)
    requires
        now + LONG_REFRESH_LIFETIME <= u64::MAX,
    ensures
        credentials matches Err(e) ==> (e == UserError::InvalidCredentials ==> r matches Err(
            ApiError::InvalidCredentials,
        )),
        credentials matches Err(e) ==> (e != UserError::InvalidCredentials ==> r matches Err(
            ApiError::InternalServerError,
        )),
        credentials is Ok ==> r is Ok,
        credentials is Ok ==> (r matches Ok(t) ==> is_session_for(
            t,
            username@,
            requested_persistence(persistent),
            now as int,
            key@,
        )),
{
    match credentials {
        Ok(_) => {
            let p = match persistent {
                Some(p) => p,
                None => false,
            };
            match start_session(username, p, now, key) {
                Ok(t) => Ok(t),
                Err(_) => Err(ApiError::CannotGenerateToken),
            }
        },
        Err(UserError::InvalidCredentials) => Err(ApiError::InvalidCredentials),
        Err(_) => Err(ApiError::InternalServerError),
    }
}

/// Answers a refresh, given the refresh cookie if the request carried one: a
/// valid refresh token is exchanged for a new session of the same subject and
/// persistence; a missing, tampered or expired one is refused and nothing is
/// issued. A failure to sign would answer `CannotGenerateToken`; signing
/// cannot fail.
pub fn refresh(refresh_cookie: Option<&str>, now: u64, key: &[u8; 32]) -> (r: Result<
    SessionTokens,
    ApiError,
>)
    requires
        now + LONG_REFRESH_LIFETIME <= u64::MAX,
    ensures
        refresh_cookie is None ==> r matches Err(ApiError::Forbidden),
        refresh_cookie matches Some(t) ==> (verified_claims(t@, key@, now as int) is Err ==> r matches Err(
            ApiError::Forbidden,
        )),
        refresh_cookie matches Some(t) ==> (verified_claims(t@, key@, now as int) matches Ok(c) ==> (
        r matches Ok(s) ==> is_session_for(s, c.0, c.2, now as int, key@))),
        refresh_cookie matches Some(t) ==> (verified_claims(t@, key@, now as int) is Ok ==> r is Ok),
{
    match refresh_cookie {
        None => Err(ApiError::Forbidden),
        Some(token) => match verify(token, key, now) {
            Err(_) => Err(ApiError::Forbidden),
            Ok(claims) => match start_session(claims.sub.as_str(), claims.persistent, now, key) {
                Ok(t) => Ok(t),
                Err(_) => Err(ApiError::CannotGenerateToken),
            },
        },
    }
}

/// A session's access token is accepted up to one hour after the session
/// started and refused after that; its refresh token is accepted up to one
/// hour after the start for an ordinary session, and up to thirty days after
/// it for a persistent one, and refused after that.
pub proof fn lemma_session_expiry(
    t: SessionTokens,
    sub: Seq<char>,
    persistent: bool,
    start: int,
    key: Seq<u8>,
    at: int,
)
    requires
        is_session_for(t, sub, persistent, start, key),
    ensures
        verified_claims(t.access_token@, key, at) is Ok <==> at <= start + 3600,
        !persistent ==> (verified_claims(t.refresh_token@, key, at) is Ok <==> at <= start + 3600),
        persistent ==> (verified_claims(t.refresh_token@, key, at) is Ok <==> at <= start + 30 * 24
            * 3600),
{
}

/// A user registered with a password can log in with it: the credential
/// check passes against the hash that registration stored, and the session
/// that login issues then carries the username as the subject of both
/// tokens.
pub proof fn lemma_registered_user_logs_in(
    username: Seq<char>,
    password: Seq<char>,
    stored_hash: Seq<char>,
    t: SessionTokens,
    persistent: bool,
    now: int,
    key: Seq<u8>,
)
    requires
        bcrypt_accepts(password, stored_hash),
        is_session_for(t, username, persistent, now, key),
    ensures
        credential_outcome(Ok(Some(stored_hash)), password) is Ok,
        verified_claims(t.access_token@, key, now) matches Ok(c) && c.0 == username,
        verified_claims(t.refresh_token@, key, now) matches Ok(c) && c.0 == username,
{
}

/// Answers a logout: with a refresh cookie present, the client is told to
/// drop it and gets a confirmation; without one, it is sent to the location
/// in the error.
pub fn logout(has_refresh_cookie: bool) -> (r: Result<String, String>)
    ensures
        has_refresh_cookie ==> (r matches Ok(m) && m@ == "Logged out"@),
        !has_refresh_cookie ==> (r matches Err(location) && location@ == "/"@),
{
    if has_refresh_cookie {
        Ok(String::from_str("Logged out"))
    } else {
        Err(String::from_str("/"))
    }
}

} // verus!
