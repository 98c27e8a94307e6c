//! The login that hands out bearer tokens, and the route that asks for one.

use vstd::prelude::*;
use vstd::string::*;
use crate::claims::{claims_members, claims_text, Claims, ClaimsView};
use crate::error::AuthError;
use crate::token::{signed_token, Keys};

verus! {

/// What a client sends to log in.
#[derive(Clone, Debug, PartialEq, Eq)]
pub struct AuthPayload {
    pub client_id: String,
    pub client_secret: String,
}

/// What a client gets back from a login that succeeded.
#[derive(Clone, Debug, PartialEq, Eq)]
pub struct AuthBody {
    /// The signed token.
    pub access_token: String,
    /// How the token is to be presented: always `Bearer`.
    pub token_type: String,
}

impl AuthBody {
    /// Wraps a signed token as a bearer token.
    pub fn new(access_token: String) -> (body: AuthBody)
        ensures
            body.access_token == access_token,
            body.token_type@ == "Bearer"@,
    {
        AuthBody { access_token, token_type: String::from_str("Bearer") }
    }
}

/// The verdict on a client id and secret: both have to be there, and they
/// have to be `foo` and `bar`.
pub open spec fn credentials_verdict(client_id: Seq<char>, client_secret: Seq<char>) -> Result<
    (),
    AuthError,
> {
    if client_id.len() == 0 || client_secret.len() == 0 {
        Err(AuthError::MissingCredentials)
    } else if client_id != "foo"@ || client_secret != "bar"@ {
        Err(AuthError::WrongCredentials)
    } else {
        Ok(())
    }
}

/// The claims that every token of this service carries.
pub open spec fn issued_claims_view() -> ClaimsView {
    ClaimsView { sub: "b@b.com"@, company: "ACME"@, exp: 2000000000 }
}

/// The token that a login gets where signing gave `signed`, or the reason why
/// it gets none. The credentials are judged first.
pub open spec fn login_verdict(
    client_id: Seq<char>,
    client_secret: Seq<char>,
    signed: Option<Seq<char>>,
) -> Result<Seq<char>, AuthError> {
    match credentials_verdict(client_id, client_secret) {
        Err(refusal) => Err(refusal),
        Ok(_) => match signed {
            Some(token) => Ok(token),
            None => Err(AuthError::TokenCreation),
        },
    }
}

/// The greeting of the protected route.
pub open spec fn protected_text(claims: ClaimsView) -> Seq<char> {
    "Welecom to the protected area! your data: "@ + claims_text(claims)
}

/// Judges the credentials of a login.
pub fn check_credentials(payload: &AuthPayload) -> (verdict: Result<(), AuthError>)
    ensures
        verdict == credentials_verdict(payload.client_id@, payload.client_secret@),
{
    if payload.client_id.as_str().is_empty() || payload.client_secret.as_str().is_empty() {
        return Err(AuthError::MissingCredentials);
    }
    if payload.client_id != String::from_str("foo") || payload.client_secret != String::from_str(
        "bar",
    ) {
        return Err(AuthError::WrongCredentials);
    }
    Ok(())
}

/// The claims that every token of this service carries.
pub fn issued_claims() -> (claims: Claims)
    ensures
        claims@ == issued_claims_view(),
{
    Claims {
        sub: String::from_str("b@b.com"),
        company: String::from_str("ACME"),
        exp: 2000000000,
    }
}

/// Turns the outcome of signing into the answer to a login: the token as a
/// bearer token, or `TokenCreation` where there is none.
pub fn grant(signed: Result<String, jsonwebtoken::errors::Error>) -> (answer: Result<
    AuthBody,
    AuthError,
>)
    ensures
        match signed {
            Ok(token) => answer matches Ok(body) && body.access_token == token
                && body.token_type@ == "Bearer"@,
            Err(_) => answer == Err::<AuthBody, AuthError>(AuthError::TokenCreation),
        },
{
    match signed {
        Ok(token) => Ok(AuthBody::new(token)),
        Err(_) => Err(AuthError::TokenCreation),
    }
}

/// Answers a login. Credentials that are missing or wrong are refused.
/// The right ones get the issued claims, signed with the keys, as a bearer
/// token.
pub fn authorize(payload: AuthPayload, keys: &Keys) -> (answer: Result<AuthBody, AuthError>)
    ensures
        match login_verdict(
            payload.client_id@,
            payload.client_secret@,
            signed_token(claims_members(issued_claims_view()), keys@),
        ) {
            Ok(token) => answer matches Ok(body) && body.access_token@ == token
                && body.token_type@ == "Bearer"@,
            Err(refusal) => answer == Err::<AuthBody, AuthError>(refusal),
        },
{
    match check_credentials(&payload) {
        Err(refusal) => Err(refusal),
        Ok(_) => grant(issued_claims().to_token(keys)),
    }
}

/// Greets the bearer of a token that was accepted.
pub fn protected(claims: Claims) -> (answer: Result<String, AuthError>)
    ensures
        answer matches Ok(text) && text@ == protected_text(claims@),
{
    let mut text = String::from_str("Welecom to the protected area! your data: ");
    text.append(claims.to_text().as_str());
    Ok(text)
}

/// A login is answered with a token exactly where the client id is `foo`,
/// the client secret is `bar` and signing gave a token; the answer is then
/// that token.
pub proof fn lemma_login_succeeds_exactly_with_foo_and_bar(
    client_id: Seq<char>,
    client_secret: Seq<char>,
    signed: Option<Seq<char>>,
)
    ensures
        login_verdict(client_id, client_secret, signed) is Ok <==> client_id == "foo"@
            && client_secret == "bar"@ && signed is Some,
        login_verdict(client_id, client_secret, signed) matches Ok(token) ==> signed == Some(
            token,
        ),
{
    reveal_strlit("foo");
    reveal_strlit("bar");
}

} // verus!
