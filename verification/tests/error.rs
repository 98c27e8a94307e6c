use web_demo::error::AuthError;
use web_demo::status::{BAD_REQUEST, INTERNAL_SERVER_ERROR, OK, UNAUTHORIZED};

#[test]
fn the_status_constants_are_the_http_codes() {
    assert_eq!(OK, 200);
    assert_eq!(BAD_REQUEST, 400);
    assert_eq!(UNAUTHORIZED, 401);
    assert_eq!(INTERNAL_SERVER_ERROR, 500);
}

#[test]
fn wrong_credentials_are_unauthorized() {
    assert_eq!(AuthError::WrongCredentials.status_code(), 401);
    assert_eq!(AuthError::WrongCredentials.message(), "Wrong credentials");
}

#[test]
fn missing_credentials_are_a_bad_request() {
    assert_eq!(AuthError::MissingCredentials.status_code(), 400);
    assert_eq!(AuthError::MissingCredentials.message(), "Missing credentials");
}

#[test]
fn a_token_creation_error_is_a_server_error() {
    assert_eq!(AuthError::TokenCreation.status_code(), 500);
    assert_eq!(AuthError::TokenCreation.message(), "Token creation error");
}

#[test]
fn an_invalid_token_is_unauthorized() {
    assert_eq!(AuthError::InvalidToken.status_code(), 401);
    assert_eq!(AuthError::InvalidToken.message(), "Invalid Token");
}

#[test]
fn every_refusal_has_an_error_status_and_a_message() {
    let all = [
        AuthError::WrongCredentials,
        AuthError::MissingCredentials,
        AuthError::TokenCreation,
        AuthError::InvalidToken,
    ];
    for error in all {
        assert!(400 <= error.status_code() && error.status_code() < 600);
        assert!(!error.message().is_empty());
    }
}
