//! The ways in which a login or a bearer token is turned down.

use vstd::prelude::*;
use crate::status::{BAD_REQUEST, INTERNAL_SERVER_ERROR, UNAUTHORIZED};

verus! {

/// Why a request was refused.
#[derive(Clone, Copy, Debug, PartialEq, Eq, Structural)]
pub enum AuthError {
    /// The client id and secret are not the expected pair.
    WrongCredentials,
    /// The client id or the client secret is empty.
    MissingCredentials,
    /// No token could be signed.
    TokenCreation,
    /// There is no bearer token, or it does not stand up to verification.
    InvalidToken,
}

impl AuthError {
    /// The HTTP status that answers a request refused for this reason.
    pub open spec fn spec_status_code(self) -> u16 {
        match self {
            AuthError::WrongCredentials => UNAUTHORIZED,
            AuthError::MissingCredentials => BAD_REQUEST,
            AuthError::TokenCreation => INTERNAL_SERVER_ERROR,
            AuthError::InvalidToken => UNAUTHORIZED,
        }
    }

    /// The sentence sent to the client under the key `error`.
    pub open spec fn spec_message(self) -> Seq<char> {
        match self {
            AuthError::WrongCredentials => "Wrong credentials"@,
            AuthError::MissingCredentials => "Missing credentials"@,
            AuthError::TokenCreation => "Token creation error"@,
            AuthError::InvalidToken => "Invalid Token"@,
        }
    }

    /// The HTTP status that answers a request refused for this reason.
    #[verifier::when_used_as_spec(spec_status_code)]
    pub fn status_code(self) -> (code: u16)
        ensures
            code == self.spec_status_code(),
    {
        match self {
            AuthError::WrongCredentials => UNAUTHORIZED,
            AuthError::MissingCredentials => BAD_REQUEST,
            AuthError::TokenCreation => INTERNAL_SERVER_ERROR,
            AuthError::InvalidToken => UNAUTHORIZED,
        }
    }

    /// The sentence sent to the client under the key `error`.
    pub fn message(self) -> (text: &'static str)
        ensures
            text@ == self.spec_message(),
    {
        match self {
            AuthError::WrongCredentials => "Wrong credentials",
            AuthError::MissingCredentials => "Missing credentials",
            AuthError::TokenCreation => "Token creation error",
            AuthError::InvalidToken => "Invalid Token",
        }
    }
}

/// Every refusal is answered with a client or server error status, and the
/// sentence that goes with it is not empty.
pub proof fn lemma_refusal_is_an_error(error: AuthError)
    ensures
        400 <= error.spec_status_code() < 600,
        error.spec_message().len() > 0,
{
    reveal_strlit("Wrong credentials");
    reveal_strlit("Missing credentials");
    reveal_strlit("Token creation error");
    reveal_strlit("Invalid Token");
}

} // verus!
