//! Accounts: password hashing, the credential check at login, and what the
//! outcome of storing a new user means.
use vstd::prelude::*;

use crate::error::ApiError;

verus! {

#[verifier::external_type_specification]
#[verifier::external_body]
pub struct ExBcryptError(bcrypt::BcryptError);

/// Why an account operation failed.
#[derive(Debug, Clone, Copy, PartialEq, Eq, Structural)]
pub enum UserError {
    UserAlreadyExists,
    InvalidCredentials,
    DatabaseError,
}

/// Whether `bcrypt::verify` accepts the password against the stored hash.
pub uninterp spec fn bcrypt_accepts(password: Seq<char>, hash: Seq<char>) -> bool;

/// Relies on bcrypt::hash at the default cost: it fails only when the system
/// gives no random salt, and bcrypt::verify accepts the password against the
/// hash it makes.
#[verifier::external_body]
fn bcrypt_hash(password: &str) -> (r: Result<String, bcrypt::BcryptError>)
    ensures
        r matches Ok(h) ==> bcrypt_accepts(password@, h@),
{
    bcrypt::hash(password, bcrypt::DEFAULT_COST)
}

/// Relies on bcrypt::verify, with a malformed hash counted as a mismatch.
#[verifier::external_body]
fn bcrypt_verify(password: &str, hash: &str) -> (r: bool)
    ensures
        r == bcrypt_accepts(password@, hash@),
{
    bcrypt::verify(password, hash).unwrap_or(false)
}

/// The one-way hash of a password that is stored for a new user; `None` when
/// no hash could be made.
pub fn hash_password(password: &str) -> (r: Option<String>)
    ensures
        r matches Some(h) ==> bcrypt_accepts(password@, h@),
{
    match bcrypt_hash(password) {
        Ok(h) => Some(h),
        Err(_) => None,
    }
}

/// The outcome of a login attempt, given what the store's lookup of the
/// username gave: its stored hash, no such user, or a store failure.
pub open spec fn credential_outcome(
    lookup: Result<Option<Seq<char>>, UserError>,
    password: Seq<char>,
) -> Result<Seq<char>, UserError> {
    match lookup {
        Ok(Some(h)) => if bcrypt_accepts(password, h) {
            Ok("Login successful"@)
        } else {
            Err(UserError::InvalidCredentials)
        },
        Ok(None) => Err(UserError::InvalidCredentials),
        Err(_) => Err(UserError::DatabaseError),
    }
}

/// The text of a lookup result.
pub open spec fn lookup_text(lookup: Result<Option<&str>, UserError>) -> Result<
    Option<Seq<char>>,
    UserError,
> {
    match lookup {
        Ok(Some(t)) => Ok(Some(t@)),
        Ok(None) => Ok(None),
        Err(e) => Err(e),
    }
}

/// Checks a password against the hash that the store holds for its
/// username. An unknown user and a wrong password give the same error; a
/// store failure is a `DatabaseError`.
pub fn check_credentials(lookup: Result<Option<&str>, UserError>, password: &str) -> (r: Result<
    String,
    UserError,
>)
    ensures
        r matches Ok(m) ==> credential_outcome(lookup_text(lookup), password@) == Ok::<
            Seq<char>,
            UserError,
        >(m@),
        r matches Err(e) ==> credential_outcome(lookup_text(lookup), password@) == Err::<
            Seq<char>,
            UserError,
        >(e),
{
    match lookup {
        Ok(Some(h)) => {
            if bcrypt_verify(password, h) {
                Ok(String::from_str("Login successful"))
            } else {
                Err(UserError::InvalidCredentials)
            }
        },
        Ok(None) => Err(UserError::InvalidCredentials),
        Err(_) => Err(UserError::DatabaseError),
    }
}

/// What storing a new user means, given how many rows the store's
/// insert-or-ignore wrote: none means the username was taken, and the stored
/// user is left as it was.
pub fn user_creation_outcome(affected_rows: usize) -> (r: Result<String, UserError>)
    ensures
        affected_rows == 0 ==> r == Err::<String, UserError>(UserError::UserAlreadyExists),
        affected_rows > 0 ==> (r matches Ok(m) && m@ == "User created"@),
{
    if affected_rows == 0 {
        Err(UserError::UserAlreadyExists)
    } else {
        Ok(String::from_str("User created"))
    }
}

/// The answer to a registration request, given the outcome of storing the
/// user.
pub fn create_user_response(outcome: &Result<String, UserError>, username: &str) -> (r: Result<
    String,
    ApiError,
>)
    ensures
        outcome is Ok ==> (r matches Ok(m) && m@ == "User "@ + username@ + " created successfully!"@),
        outcome matches Err(e) ==> (e == UserError::UserAlreadyExists ==> r == Err::<
            String,
            ApiError,
        >(ApiError::UserAlreadyExists)),
        outcome matches Err(e) ==> (e != UserError::UserAlreadyExists ==> r == Err::<
            String,
            ApiError,
        >(ApiError::InternalServerError)),
{
    match outcome {
        Ok(_) => {
            let m = String::from_str("User ");
            let m = m.concat(username);
            Ok(m.concat(" created successfully!"))
        },
        Err(UserError::UserAlreadyExists) => Err(ApiError::UserAlreadyExists),
        Err(_) => Err(ApiError::InternalServerError),
    }
}

} // verus!
