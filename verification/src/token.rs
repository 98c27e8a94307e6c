//! Signed tokens: the JSON object that a token carries, and the calls that
//! sign such an object and check a token that comes back.
//!
//! The object is a `serde_json::Map` and the signing is done by
//! `jsonwebtoken`. Neither is verified here: this module says what is taken
//! for granted of them, and everything else in the crate is proved from that.

use vstd::prelude::*;
use vstd::slice::*;

verus! {

/// `serde_json::Value`, a JSON value. Nothing is known of what is inside.
#[verifier::external_type_specification]
#[verifier::external_body]
pub struct ExJsonValue(serde_json::Value);

/// `serde_json::Map`, a JSON object. What is known of its members is said
/// through `object_members`.
#[verifier::external_type_specification]
#[verifier::external_body]
#[verifier::reject_recursive_types(K)]
#[verifier::reject_recursive_types(V)]
pub struct ExJsonMap<K, V>(serde_json::Map<K, V>);

/// `jsonwebtoken::errors::Error`, the reason why a token was not signed or
/// not accepted. The crate never looks into it.
#[verifier::external_type_specification]
#[verifier::external_body]
pub struct ExTokenError(jsonwebtoken::errors::Error);

/// A value that a member of a token's object is written with and read as.
#[derive(Clone, Debug, PartialEq, Eq)]
pub enum Field {
    /// A JSON string.
    Text(String),
    /// A JSON number that is an unsigned integer.
    Count(u64),
}

/// What a member of a JSON object holds, as far as this crate tells values
/// apart.
pub enum FieldValue {
    /// A string.
    Text(Seq<char>),
    /// A number that serde_json holds as an unsigned integer: one for which
    /// `Number::as_u64` gives a value.
    Count(u64),
    /// Anything else: null, a boolean, a negative number or one with a
    /// fraction or an exponent, an array, an object.
    Other,
}

impl View for Field {
    type V = FieldValue;

    open spec fn view(&self) -> FieldValue {
        match self {
            Field::Text(text) => FieldValue::Text(text@),
            Field::Count(count) => FieldValue::Count(*count),
        }
    }
}

/// The members of a JSON object, each a name and a value, in the order in
/// which the object is written out.
pub type Members = Seq<(Seq<char>, FieldValue)>;

/// The members that a `serde_json::Map` holds, in the order in which it
/// hands them out and writes them. serde_json is built with its feature
/// `preserve_order` here, which makes this the order in which the names
/// were inserted. No name occurs twice.
pub uninterp spec fn object_members(object: serde_json::Map<String, serde_json::Value>) -> Seq<
    (Seq<char>, FieldValue),
>;

/// The token that `jsonwebtoken::encode` makes of a JSON object and a
/// secret: the HS256 token over the default header and the object's JSON
/// text, or `None` where it fails. It is a matter of the members and the
/// secret alone, and nothing more is said of it here.
pub uninterp spec fn signed_token(members: Seq<(Seq<char>, FieldValue)>, secret: Seq<u8>) -> Option<
    Seq<char>,
>;

/// Whether some member goes by the name.
pub open spec fn has_name(members: Members, name: Seq<char>) -> bool {
    exists|i: int| 0 <= i < members.len() && (#[trigger] members[i]).0 == name
}

/// The value of the member that goes by the name. An object holds a name at
/// most once.
pub open spec fn member(members: Members, name: Seq<char>) -> Option<FieldValue>
    decreases members.len(),
{
    if members.len() == 0 {
        None
    } else if members.last().0 == name {
        Some(members.last().1)
    } else {
        member(members.drop_last(), name)
    }
}

/// Whether every member is a string or a non-negative integer.
pub open spec fn all_plain(members: Members) -> bool {
    forall|i: int| 0 <= i < members.len() ==> !((#[trigger] members[i]).1 is Other)
}

/// What reading a member as a `Field` gives: the value where it is a string
/// or a non-negative integer, nothing where it is of another kind or absent.
pub open spec fn readable(value: Option<FieldValue>) -> Option<FieldValue> {
    match value {
        Some(FieldValue::Other) => None,
        _ => value,
    }
}

/// The view of a field that may be absent.
pub open spec fn seen(field: Option<Field>) -> Option<FieldValue> {
    match field {
        Some(f) => Some(f@),
        None => None,
    }
}

/// Calls `serde_json::Map::new`, which gives an object without members.
#[verifier::external_body]
pub(crate) fn new_object() -> (object: serde_json::Map<String, serde_json::Value>)
    ensures
        object_members(object) == Seq::<(Seq<char>, FieldValue)>::empty(),
{
    serde_json::Map::new()
}

/// Calls `serde_json::Map::insert` with a name that the object does not
/// hold yet. The new member then comes last and the others stay as they are.
/// A text goes in as `Value::String`, a count as the `Value::Number` that
/// `Value::from` makes of a `u64`.
#[verifier::external_body]
pub(crate) fn put(
    object: &mut serde_json::Map<String, serde_json::Value>,
    name: &str,
    field: Field,
)
    requires
        !has_name(object_members(*old(object)), name@),
    ensures
        object_members(*final(object)) == object_members(*old(object)).push((name@, field@)),
{
    let value = match field {
        Field::Text(text) => serde_json::Value::String(text),
        Field::Count(count) => serde_json::Value::from(count),
    };
    object.insert(name.to_owned(), value);
}

/// Calls `serde_json::Map::get`, which gives the member that goes by the
/// name. It is handed out as a `Field` where it is a `Value::String`, or a
/// `Value::Number` for which `Number::as_u64` gives a value; a member of
/// another kind is handed out as little as one that is not there.
#[verifier::external_body]
pub(crate) fn get(object: &serde_json::Map<String, serde_json::Value>, name: &str) -> (field:
    Option<Field>)
    ensures
        seen(field) == readable(member(object_members(*object), name@)),
{
    match object.get(name) {
        Some(serde_json::Value::String(text)) => Some(Field::Text(text.clone())),
        Some(serde_json::Value::Number(number)) => number.as_u64().map(Field::Count),
        _ => None,
    }
}

/// Calls `jsonwebtoken::encode` with `Header::default()`, the object as the
/// claims, and the key that `EncodingKey::from_secret` makes of the secret.
/// The contract gives the outcome its name, `signed_token`, and claims
/// nothing else: not that signing succeeds, nor what a token looks like.
#[verifier::external_body]
pub(crate) fn sign(object: &serde_json::Map<String, serde_json::Value>, secret: &[u8]) -> (signed:
    Result<String, jsonwebtoken::errors::Error>)
    requires
        all_plain(object_members(*object)),
    ensures
        match signed {
            Ok(token) => signed_token(object_members(*object), secret@) == Some(token@),
            Err(_) => signed_token(object_members(*object), secret@) is None,
        },
{
    jsonwebtoken::encode(
        &jsonwebtoken::Header::default(),
        object,
        &jsonwebtoken::EncodingKey::from_secret(secret),
    )
}

/// Calls `jsonwebtoken::decode` with `Validation::default()` and the key
/// that `DecodingKey::from_secret` makes of the secret, and hands out the
/// claims of a token that was accepted. A token is held against the system
/// clock, so the same token may be accepted now and turned down later:
/// nothing is promised of the outcome.
#[verifier::external_body]
pub(crate) fn verify(token: &str, secret: &[u8]) -> (verified: Result<
    serde_json::Map<String, serde_json::Value>,
    jsonwebtoken::errors::Error,
>) {
    jsonwebtoken::decode::<serde_json::Map<String, serde_json::Value>>(
        token,
        &jsonwebtoken::DecodingKey::from_secret(secret),
        &jsonwebtoken::Validation::default(),
    ).map(|data| data.claims)
}

/// The secret that tokens are signed and checked with.
pub struct Keys {
    secret: Vec<u8>,
}

impl View for Keys {
    type V = Seq<u8>;

    closed spec fn view(&self) -> Seq<u8> {
        self.secret@
    }
}

impl Keys {
    /// Keeps a copy of the secret.
    pub fn new(secret: &[u8]) -> (keys: Keys)
        ensures
            keys@ == secret@,
    {
        Keys { secret: slice_to_vec(secret) }
    }

    /// The secret, as bytes.
    pub fn secret(&self) -> (secret: &[u8])
        ensures
            secret@ == self@,
    {
        self.secret.as_slice()
    }
}

} // verus!
