//! The request guard of routes that need an authenticated caller.
use vstd::prelude::*;

use crate::error::ApiError;
use crate::token::{validate_jwt_token, verified_claims, Claims};

verus! {

/// The identity that a request was authenticated as: the claims of its token.
#[derive(Debug)]
pub struct AuthenticatedUser(pub Claims);

/// Authenticates a request by the token in its `Authorization` header
/// (`None` when the header is missing or is not text). Whatever the cause of
/// a rejection, the error is the same.
pub fn authenticate(authorization: Option<&str>, now: u64, key: &[u8; 32]) -> (r: Result<
    AuthenticatedUser,
    ApiError,
>)
    ensures
        authorization is None ==> r matches Err(ApiError::AuthError),
        authorization matches Some(t) ==> (verified_claims(t@, key@, now as int) is Err ==> r matches Err(
            ApiError::AuthError,
        )),
        authorization matches Some(t) ==> (verified_claims(t@, key@, now as int) matches Ok(c) ==> (
        r matches Ok(u) && u.0@ == c)),
{
    match authorization {
        None => Err(ApiError::AuthError),
        Some(token) => match validate_jwt_token(token, key, now) {
            Ok(claims) => Ok(AuthenticatedUser(claims)),
            Err(e) => Err(e),
        },
    }
}

} // verus!
