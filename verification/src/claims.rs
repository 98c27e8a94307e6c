//! The claims that a bearer token carries, and how they are written into a
//! token and read back from one.

use vstd::prelude::*;
use vstd::string::*;
use crate::error::AuthError;
use crate::token::{
    all_plain, get, member, new_object, object_members, put, readable, seen, sign, signed_token,
    verify, Field, FieldValue, Keys, Members,
};

verus! {

/// What a token says of its bearer.
#[derive(Clone, Debug, PartialEq, Eq)]
pub struct Claims {
    /// The bearer's e-mail address.
    pub sub: String,
    /// The company the bearer belongs to.
    pub company: String,
    /// The second, counted from the start of 1970, at which the token expires.
    pub exp: usize,
}

/// A claim set as plain values.
pub struct ClaimsView {
    pub sub: Seq<char>,
    pub company: Seq<char>,
    pub exp: usize,
}

impl View for Claims {
    type V = ClaimsView;

    open spec fn view(&self) -> ClaimsView {
        ClaimsView { sub: self.sub@, company: self.company@, exp: self.exp }
    }
}

/// The line that presents a claim set to its bearer.
pub open spec fn claims_text(claims: ClaimsView) -> Seq<char> {
    "Email: "@ + claims.sub + " Company: "@ + claims.company
}

/// The members of the JSON object that a token carries for a claim set.
pub open spec fn claims_members(claims: ClaimsView) -> Members {
    seq![
        ("sub"@, FieldValue::Text(claims.sub)),
        ("company"@, FieldValue::Text(claims.company)),
        ("exp"@, FieldValue::Count(claims.exp as u64)),
    ]
}

/// The claim set that three fields make up: `sub` and `company` have to be
/// strings, and `exp` a non-negative integer that fits `usize`.
pub open spec fn fields_claims(
    sub: Option<FieldValue>,
    company: Option<FieldValue>,
    exp: Option<FieldValue>,
) -> Option<ClaimsView> {
    match (sub, company, exp) {
        (
            Some(FieldValue::Text(sub)),
            Some(FieldValue::Text(company)),
            Some(FieldValue::Count(exp)),
        ) => if exp <= usize::MAX {
            Some(ClaimsView { sub, company, exp: exp as usize })
        } else {
            None
        },
        _ => None,
    }
}

/// The claim set that the members of a JSON object make up. Members under
/// other names are passed over.
pub open spec fn members_claims(members: Members) -> Option<ClaimsView> {
    fields_claims(
        readable(member(members, "sub"@)),
        readable(member(members, "company"@)),
        readable(member(members, "exp"@)),
    )
}

impl Claims {
    /// The line that presents the claims to their bearer.
    pub fn to_text(&self) -> (text: String)
        ensures
            text@ == claims_text(self@),
    {
        let mut text = String::from_str("Email: ");
        text.append(self.sub.as_str());
        text.append(" Company: ");
        text.append(self.company.as_str());
        text
    }

    /// Makes a claim set of the three fields read from a token, or refuses
    /// the token where one of them is missing or of the wrong kind.
    pub fn from_fields(sub: Option<Field>, company: Option<Field>, exp: Option<Field>) -> (claims:
        Result<Claims, AuthError>)
        ensures
            match fields_claims(seen(sub), seen(company), seen(exp)) {
                Some(view) => claims matches Ok(c) && c@ == view,
                None => claims == Err::<Claims, AuthError>(AuthError::InvalidToken),
            },
    {
        match (sub, company, exp) {
            (Some(Field::Text(sub)), Some(Field::Text(company)), Some(Field::Count(exp))) => {
                if exp <= usize::MAX as u64 {
                    Ok(Claims { sub, company, exp: exp as usize })
                } else {
                    Err(AuthError::InvalidToken)
                }
            },
            _ => Err(AuthError::InvalidToken),
        }
    }

    /// The JSON object that a token carries for the claims: `sub`, `company`
    /// and `exp`, in this order.
    pub fn to_object(&self) -> (object: serde_json::Map<String, serde_json::Value>)
        ensures
            object_members(object) == claims_members(self@),
            all_plain(object_members(object)),
    {
        proof {
            lemma_names_differ();
        }
        let mut object = new_object();
        put(&mut object, "sub", Field::Text(self.sub.clone()));
        put(&mut object, "company", Field::Text(self.company.clone()));
        put(&mut object, "exp", Field::Count(self.exp as u64));
        assert(object_members(object) =~= claims_members(self@));
        object
    }

    /// Signs the claims with the keys. The outcome is the token that goes by
    /// the name `signed_token` for the members of `to_object` and the secret
    /// of the keys, or an error where there is none.
    pub fn to_token(&self, keys: &Keys) -> (signed: Result<String, jsonwebtoken::errors::Error>)
        ensures
            match signed {
                Ok(token) => signed_token(claims_members(self@), keys@) == Some(token@),
                Err(_) => signed_token(claims_members(self@), keys@) is None,
            },
    {
        sign(&self.to_object(), keys.secret())
    }

    /// Reads the claims of a token that was put to verification: out of the
    /// JSON object that it carries where it was accepted, and none where it
    /// was turned down.
    pub fn from_verified(
        verified: Result<serde_json::Map<String, serde_json::Value>, jsonwebtoken::errors::Error>,
    ) -> (claims: Result<Claims, AuthError>)
        ensures
            match verified {
                Ok(object) => match members_claims(object_members(object)) {
                    Some(view) => claims matches Ok(c) && c@ == view,
                    None => claims == Err::<Claims, AuthError>(AuthError::InvalidToken),
                },
                Err(_) => claims == Err::<Claims, AuthError>(AuthError::InvalidToken),
            },
    {
        match verified {
            Ok(object) => Claims::from_fields(
                get(&object, "sub"),
                get(&object, "company"),
                get(&object, "exp"),
            ),
            Err(_) => Err(AuthError::InvalidToken),
        }
    }

    /// The claims of the bearer of a request. A request without a bearer
    /// token is refused, and so is one whose token does not verify under the
    /// keys, has expired, or lacks one of the claims.
    pub fn from_bearer(bearer: Option<&str>, keys: &Keys) -> (claims: Result<Claims, AuthError>)
        ensures
            bearer is None ==> claims is Err,
            claims matches Err(refusal) ==> refusal == AuthError::InvalidToken,
    {
        match bearer {
            None => Err(AuthError::InvalidToken),
            Some(token) => Claims::from_verified(verify(token, keys.secret())),
        }
    }
}

/// The three names under which a claim set is written differ from one
/// another.
proof fn lemma_names_differ()
    ensures
        "sub"@ != "company"@,
        "sub"@ != "exp"@,
        "company"@ != "exp"@,
{
    reveal_strlit("sub");
    reveal_strlit("company");
    reveal_strlit("exp");
    assert("sub"@.len() != "company"@.len());
    assert("exp"@.len() != "company"@.len());
    assert("sub"@[0] != "exp"@[0]);
}

/// A claim set written into a token's object is read back from it unchanged.
pub proof fn lemma_claims_survive_the_object(claims: ClaimsView)
    ensures
        members_claims(claims_members(claims)) == Some(claims),
{
    lemma_names_differ();
    reveal_with_fuel(member, 4);
}

} // verus!
