use vstd::prelude::*;

use crate::clock::system_time_rfc3339;

verus! {

/// The JSON body of an error response.
#[derive(Debug)]
pub struct ErrResponseBody {
    pub error: String,
    pub timestamp: String,
}

/// Every failure that a request can end in, as the client sees it.
#[derive(Debug, Clone, Copy, PartialEq, Eq, Structural)]
pub enum ApiError {
    AuthError,
    Forbidden,
    NotFound,
    CannotGenerateToken,
    InvalidCredentials,
    InternalServerError,
    UserAlreadyExists,
    Conflict,
    InvalidCode,
}

/// The message that the client is shown for each error.
pub open spec fn message_of(e: ApiError) -> Seq<char> {
    match e {
        ApiError::AuthError => "User not authenticated"@,
        ApiError::NotFound => "Data not found"@,
        ApiError::CannotGenerateToken => "Could not generate access token"@,
        ApiError::InvalidCredentials => "Invalid Credentials"@,
        ApiError::InternalServerError => "Internal server error"@,
        ApiError::UserAlreadyExists => "User already exists"@,
        ApiError::Conflict => "Data already exists"@,
        ApiError::Forbidden => "Forbidden"@,
        ApiError::InvalidCode => "Invalid short code"@,
    }
}

/// The HTTP status that each error is answered with.
pub open spec fn status_of(e: ApiError) -> u16 {
    match e {
        ApiError::AuthError => 401,
        ApiError::NotFound => 404,
        ApiError::CannotGenerateToken => 500,
        ApiError::InvalidCredentials => 401,
        ApiError::InternalServerError => 500,
        ApiError::UserAlreadyExists => 409,
        ApiError::Conflict => 409,
        ApiError::Forbidden => 403,
        ApiError::InvalidCode => 400,
    }
}

impl ApiError {
    pub fn message(&self) -> (r: &'static str)
        ensures
            r@ == message_of(*self),
    {
        match self {
            ApiError::AuthError => "User not authenticated",
            ApiError::NotFound => "Data not found",
            ApiError::CannotGenerateToken => "Could not generate access token",
            ApiError::InvalidCredentials => "Invalid Credentials",
            ApiError::InternalServerError => "Internal server error",
            ApiError::UserAlreadyExists => "User already exists",
            ApiError::Conflict => "Data already exists",
            ApiError::Forbidden => "Forbidden",
            ApiError::InvalidCode => "Invalid short code",
        }
    }

    /// The body that the error is answered with, stamped with the current time.
    pub fn to_response_body(&self) -> (r: ErrResponseBody)
        ensures
            r.error@ == message_of(*self),
    {
        ErrResponseBody {
            error: String::from_str(self.message()),
            timestamp: system_time_rfc3339(),
        }
    }

    pub fn status_code(&self) -> (r: u16)
        ensures
            r == status_of(*self),
    {
        match self {
            ApiError::AuthError => 401,
            ApiError::NotFound => 404,
            ApiError::CannotGenerateToken => 500,
            ApiError::InvalidCredentials => 401,
            ApiError::InternalServerError => 500,
            ApiError::UserAlreadyExists => 409,
            ApiError::Conflict => 409,
            ApiError::Forbidden => 403,
            ApiError::InvalidCode => 400,
        }
    }
}

} // verus!
