//! Signing and checking of session tokens, and the signing key they rest on.
use vstd::prelude::*;

use crate::error::ApiError;

verus! {

#[verifier::external_type_specification]
#[verifier::external_body]
pub struct ExJwtError(jsonwebtoken::errors::Error);

/// What a token carries: whose it is, the instant (seconds since the Unix
/// epoch) after which it is no longer accepted, and whether its session is
/// the long-lived kind.
#[derive(Debug)]
pub struct Claims {
    pub sub: String,
    pub exp: u64,
    pub persistent: bool,
}

impl View for Claims {
    type V = ClaimSet;

    open spec fn view(&self) -> ClaimSet {
        (self.sub@, self.exp as int, self.persistent)
    }
}

/// A claim set as a value: subject, expiry, persistence.
pub type ClaimSet = (Seq<char>, int, bool);

/// Why a token was not accepted.
#[derive(Debug, Clone, Copy, PartialEq, Eq, Structural)]
pub enum TokenError {
    /// Not a token, not signed with this key, or its payload lacks a claim.
    InvalidToken,
    /// Well formed and correctly signed, but past its expiry.
    TokenExpired,
    /// The token could not be produced.
    SigningFailure,
}

/// The token that `jsonwebtoken::encode` makes of a payload and a key.
pub uninterp spec fn jwt_token_of(sub: Seq<char>, exp: int, persistent: bool, key: Seq<u8>) -> Seq<char>;

/// The payload that `jsonwebtoken::decode` finds in a token under a key, when
/// the signature holds and the payload has the three claims.
pub uninterp spec fn jwt_claims_of(token: Seq<char>, key: Seq<u8>) -> Option<(Seq<char>, int, bool)>;

/// What checking a token at instant `now` gives: its claims while they are
/// unexpired (a token stays valid through the second named by its expiry).
pub open spec fn verified_claims(token: Seq<char>, key: Seq<u8>, now: int) -> Result<ClaimSet, TokenError> {
    match jwt_claims_of(token, key) {
        None => Err(TokenError::InvalidToken),
        Some(c) => if c.1 < now {
            Err(TokenError::TokenExpired)
        } else {
            Ok(c)
        },
    }
}

/// Relies on jsonwebtoken::encode with the default header (HS256) and the key
/// as HMAC secret: the key's family matches the header's algorithm, the
/// header and a JSON map always serialise and HMAC signing cannot fail, so it
/// succeeds; the token depends on the payload and the key alone, and
/// jsonwebtoken::decode under the same key gives the payload back.
#[verifier::external_body]
fn encode_token(sub: &str, exp: u64, persistent: bool, key: &[u8; 32]) -> (r: Result<
    String,
    jsonwebtoken::errors::Error,
>)
    ensures
        r is Ok,
        r matches Ok(t) ==> t@ == jwt_token_of(sub@, exp as int, persistent, key@),
        r matches Ok(t) ==> jwt_claims_of(t@, key@) == Some((sub@, exp as int, persistent)),
{
    let mut payload = serde_json::Map::new();
    payload.insert("sub".to_string(), serde_json::Value::from(sub));
    payload.insert("exp".to_string(), serde_json::Value::from(exp));
    payload.insert("persistent".to_string(), serde_json::Value::from(persistent));
    let secret = jsonwebtoken::EncodingKey::from_secret(key);
    jsonwebtoken::encode(&jsonwebtoken::Header::default(), &payload, &secret)
}

/// Relies on jsonwebtoken::decode with HS256 and its own expiry check turned
/// off (expiry is checked by `verify`): the outcome depends on the token and
/// the key alone.
#[verifier::external_body]
fn decode_token(token: &str, key: &[u8; 32]) -> (r: Option<(String, u64, bool)>)
    ensures
        r matches Some(c) ==> jwt_claims_of(token@, key@) == Some((c.0@, c.1 as int, c.2)),
        r is None ==> jwt_claims_of(token@, key@) is None,
{
    let mut validation = jsonwebtoken::Validation::new(jsonwebtoken::Algorithm::HS256);
    validation.validate_exp = false;
    let secret = jsonwebtoken::DecodingKey::from_secret(key);
    let c = jsonwebtoken::decode::<serde_json::Value>(token, &secret, &validation).ok()?.claims;
    Some((c["sub"].as_str()?.to_string(), c["exp"].as_u64()?, c["persistent"].as_bool()?))
}

/// Signs a claim set with the key. An HS256 signature over a claim set
/// cannot fail, so `SigningFailure` is never returned.
pub fn issue(claims: &Claims, key: &[u8; 32]) -> (r: Result<String, TokenError>)
    ensures
        r is Ok,
        r matches Ok(t) ==> t@ == jwt_token_of(claims.sub@, claims.exp as int, claims.persistent, key@),
        r matches Ok(t) ==> jwt_claims_of(t@, key@) == Some(claims@),
        r matches Ok(t) ==> forall|now: int|
            now <= claims.exp ==> #[trigger] verified_claims(t@, key@, now) == Ok::<ClaimSet, TokenError>(claims@),
{
    match encode_token(claims.sub.as_str(), claims.exp, claims.persistent, key) {
        Ok(t) => Ok(t),
        Err(_) => Err(TokenError::SigningFailure),
    }
}

/// Checks a token's structure and signature under the key, and its expiry
/// against `now`.
pub fn verify(token: &str, key: &[u8; 32], now: u64) -> (r: Result<Claims, TokenError>)
    ensures
        r matches Ok(c) ==> verified_claims(token@, key@, now as int) == Ok::<ClaimSet, TokenError>(c@),
        r matches Err(e) ==> verified_claims(token@, key@, now as int) == Err::<ClaimSet, TokenError>(e),
{
    match decode_token(token, key) {
        None => Err(TokenError::InvalidToken),
        Some((sub, exp, persistent)) => {
            if exp < now {
                Err(TokenError::TokenExpired)
            } else {
                Ok(Claims { sub, exp, persistent })
            }
        },
    }
}

/// Checks a token as `verify` does; every failure is the one error that
/// callers see.
pub fn validate_jwt_token(token: &str, key: &[u8; 32], now: u64) -> (r: Result<Claims, ApiError>)
    ensures
        r matches Ok(c) ==> verified_claims(token@, key@, now as int) == Ok::<ClaimSet, TokenError>(c@),
        r matches Err(e) ==> verified_claims(token@, key@, now as int) is Err && e
            == ApiError::AuthError,
{
    match verify(token, key, now) {
        Ok(c) => Ok(c),
        Err(_) => Err(ApiError::AuthError),
    }
}

/// Holds the key that signs and checks tokens, made on first use and the
/// same ever after.
pub struct KeyProvider {
    key: Option<[u8; 32]>,
}

impl KeyProvider {
    /// The key handed out so far, if any.
    pub closed spec fn key(&self) -> Option<[u8; 32]> {
        self.key
    }

    pub fn new() -> (r: Self)
        ensures
            r.key() is None,
    {
        KeyProvider { key: None }
    }
}

/// Relies on rand's thread-local generator, a cryptographically secure source,
/// for 256 random bits. Nothing is known of the bits.
#[verifier::external_body]
fn generate_secret_key() -> [u8; 32] {
    let mut key = [0u8; 32];
    rand::RngCore::fill_bytes(&mut rand::thread_rng(), &mut key);
    key
}

/// The signing key: the first call makes it, every later call returns it.
pub fn get_jwt_encoding_key(provider: &mut KeyProvider) -> (r: [u8; 32])
    ensures
        old(provider).key() matches Some(k) ==> r == k && final(provider).key() == Some(k),
        old(provider).key() is None ==> final(provider).key() == Some(r),
{
    match provider.key {
        Some(k) => k,
        None => {
            let k = generate_secret_key();
            provider.key = Some(k);
            k
        },
    }
}

} // verus!
