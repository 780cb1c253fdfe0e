use url_shortener::account::{
    check_credentials, create_user_response, hash_password, user_creation_outcome, UserError,
};
use url_shortener::error::{ApiError, ErrResponseBody};
use url_shortener::response::OkResponse;

#[test]
fn wrong_password_is_rejected() {
    let stored = hash_password("right").unwrap();
    assert_ne!(stored, "right");
    assert_eq!(check_credentials(Ok(Some(&stored)), "wrong"), Err(UserError::InvalidCredentials));
}

#[test]
fn unknown_user_or_malformed_hash_is_rejected() {
    assert_eq!(check_credentials(Ok(None), "pw"), Err(UserError::InvalidCredentials));
    assert_eq!(check_credentials(Ok(Some("not-a-hash")), "pw"), Err(UserError::InvalidCredentials));
}

#[test]
fn store_failure_on_lookup_is_database_error() {
    assert_eq!(check_credentials(Err(UserError::DatabaseError), "pw"), Err(UserError::DatabaseError));
}

#[test]
fn existing_username_is_user_already_exists() {
    let outcome = user_creation_outcome(0);
    assert_eq!(outcome, Err(UserError::UserAlreadyExists));
    assert_eq!(create_user_response(&outcome, "alice"), Err(ApiError::UserAlreadyExists));
}

#[test]
fn new_username_is_created() {
    let outcome = user_creation_outcome(1);
    assert_eq!(outcome, Ok("User created".to_string()));
    assert_eq!(user_creation_outcome(3), Ok("User created".to_string()));
    assert_eq!(
        create_user_response(&outcome, "alice"),
        Ok("User alice created successfully!".to_string())
    );
}

#[test]
fn store_failure_on_create_is_internal_error() {
    let outcome = Err(UserError::DatabaseError);
    assert_eq!(create_user_response(&outcome, "alice"), Err(ApiError::InternalServerError));
}

#[test]
fn error_messages_and_statuses() {
    let cases = [
        (ApiError::AuthError, "User not authenticated", 401),
        (ApiError::Forbidden, "Forbidden", 403),
        (ApiError::NotFound, "Data not found", 404),
        (ApiError::CannotGenerateToken, "Could not generate access token", 500),
        (ApiError::InvalidCredentials, "Invalid Credentials", 401),
        (ApiError::InternalServerError, "Internal server error", 500),
        (ApiError::UserAlreadyExists, "User already exists", 409),
        (ApiError::Conflict, "Data already exists", 409),
        (ApiError::InvalidCode, "Invalid short code", 400),
    ];
    for (error, message, status) in cases {
        assert_eq!(error.message(), message);
        assert_eq!(error.status_code(), status);
    }
}

#[test]
fn error_body_carries_message_and_time() {
    let body: ErrResponseBody = ApiError::Conflict.to_response_body();
    assert_eq!(body.error, "Data already exists");
    assert!(!body.timestamp.is_empty());
}

#[test]
fn ok_response_carries_data_and_time() {
    let r = OkResponse::new(42u32);
    assert_eq!(r.data, 42);
    assert!(!r.timestamp.is_empty());
}
