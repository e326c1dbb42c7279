//! Signing and checking of bearer tokens, as the `jsonwebtoken` crate does
//! them, and the reading of a token's payload.

use crate::auth::{Claims, ClaimsView};
use crate::conf::ConfJwt;
use crate::time::Moment;
use jsonwebtoken::errors::{Error, ErrorKind};
use serde_json::Value;
use vstd::prelude::*;

verus! {

/// Why a token was not signed or not accepted, as far as the rules tell the
/// reasons apart.
#[derive(Clone, Copy, Debug, PartialEq, Eq, Structural)]
pub enum Fault {
    InvalidSignature,
    ExpiredSignature,
    InvalidIssuer,
    InvalidAudience,
    Other,
}

/// What a payload holds under one name.
#[derive(Clone, Debug, PartialEq, Eq)]
pub enum Field {
    /// The payload has no such name.
    Absent,
    /// The name stands for `null`.
    Null,
    /// The name stands for a string.
    Text(String),
    /// The name stands for a whole number that fits `u64`.
    Unsigned(u64),
    /// The name stands for anything else.
    Other,
}

/// `jsonwebtoken::errors::Error`, the error of a token that was not signed
/// or not accepted. Nothing is known of what a value holds.
#[verifier::external_type_specification]
#[verifier::external_body]
pub struct ExJwtError(Error);

/// `serde_json::Value`, a JSON value: here a token's payload. What a value
/// holds is seen through `payload_members` alone.
#[verifier::external_type_specification]
#[verifier::external_body]
pub struct ExJsonValue(Value);

/// The token that `jsonwebtoken::encode` makes of these claims with this
/// secret; `None` where it makes none.
pub uninterp spec fn signed_token(
    sub: Seq<char>,
    exp: u64,
    role: Seq<char>,
    iss: Seq<char>,
    aud: Seq<char>,
    iat: u64,
    nbf: Option<u64>,
    secret: Seq<char>,
) -> Option<Seq<char>>;

/// `jsonwebtoken::encode`, with the default header (HS256) and the secret
/// of `conf` as the key, on a payload that holds the seven claims under
/// their names, in the order of the fields, an absent `nbf` as `null`. The
/// token depends on the claims and the secret alone, so it has a name.
#[verifier::external_body]
pub fn encode(claims: &Claims, conf: &ConfJwt) -> (r: Result<String, Error>)
    ensures
        r matches Ok(token) ==> signed_token(
            claims.sub@,
            claims.exp,
            claims.role@,
            claims.iss@,
            claims.aud@,
            claims.iat,
            claims.nbf,
            conf.secret@,
        ) == Some(token@),
        r is Err ==> signed_token(
            claims.sub@,
            claims.exp,
            claims.role@,
            claims.iss@,
            claims.aud@,
            claims.iat,
            claims.nbf,
            conf.secret@,
        ) is None,
        r matches Ok(token) ==> signed_with(token@, conf.secret@) && carried_members(token@)
            == Some(claim_members(claims@)),
{
    let mut payload = serde_json::Map::new();
    payload.insert("sub".into(), claims.sub.as_str().into());
    payload.insert("exp".into(), claims.exp.into());
    payload.insert("role".into(), claims.role.as_str().into());
    payload.insert("iss".into(), claims.iss.as_str().into());
    payload.insert("aud".into(), claims.aud.as_str().into());
    payload.insert("iat".into(), claims.iat.into());
    payload.insert("nbf".into(), claims.nbf.into());
    let key = jsonwebtoken::EncodingKey::from_secret(conf.secret.as_bytes());
    jsonwebtoken::encode(&jsonwebtoken::Header::default(), &payload, &key)
}

/// `jsonwebtoken::decode`, for HS256 with the secret of `conf` as the key,
/// no leeway, and the audience and issuer of `conf` as the only ones
/// accepted: the payload of a token that the crate accepts, or its error.
/// Whether a token is accepted depends on the clock, so nothing is claimed
/// of that. A token that is accepted has passed the crate's check of the
/// signature, and the payload is the JSON that its middle part holds. The
/// crate reads the clock itself and stops the program where it shows a
/// time before the epoch: `decode` reads the clock first.
#[verifier::external_body]
fn judge(token: &str, conf: &ConfJwt) -> (r: Result<Value, Error>)
    ensures
        r matches Ok(payload) ==> signed_with(token@, conf.secret@) && carried_members(token@)
            == Some(payload_members(payload)),
{
    let mut validation = jsonwebtoken::Validation::new(jsonwebtoken::Algorithm::HS256);
    validation.leeway = 0;
    validation.set_audience(&[&conf.audience]);
    validation.set_issuer(&[&conf.issuer]);
    let key = jsonwebtoken::DecodingKey::from_secret(conf.secret.as_bytes());
    jsonwebtoken::decode::<Value>(token, &key, &validation).map(|data| data.claims)
}

/// The payload of `token`, if the token crate accepts the token now under
/// `conf`; else the fault that it finds. Where the clock shows a time
/// before the epoch no token holds, and the crate is not asked.
pub fn decode(token: &str, conf: &ConfJwt) -> (r: Result<Value, Fault>)
    ensures
        r matches Ok(payload) ==> signed_with(token@, conf.secret@) && carried_members(token@)
            == Some(payload_members(payload)),
{
    match Moment::now() {
        Err(_) => Err(Fault::ExpiredSignature),
        Ok(_) => match judge(token, conf) {
            Ok(payload) => Ok(payload),
            Err(e) => Err(fault_of(&e)),
        },
    }
}

/// `jsonwebtoken::errors::Error::kind`: which of the crate's error kinds an
/// error is, the four that the rules name told apart from the rest.
#[verifier::external_body]
fn fault_of(e: &Error) -> (f: Fault) {
    match e.kind() {
        ErrorKind::InvalidSignature => Fault::InvalidSignature,
        ErrorKind::ExpiredSignature => Fault::ExpiredSignature,
        ErrorKind::InvalidIssuer => Fault::InvalidIssuer,
        ErrorKind::InvalidAudience => Fault::InvalidAudience,
        _ => Fault::Other,
    }
}

/// What a `Field` value holds.
pub enum FieldView {
    Absent,
    Null,
    Text(Seq<char>),
    Unsigned(u64),
    Other,
}

impl View for Field {
    type V = FieldView;

    open spec fn view(&self) -> FieldView {
        match *self {
            Field::Absent => FieldView::Absent,
            Field::Null => FieldView::Null,
            Field::Text(s) => FieldView::Text(s@),
            Field::Unsigned(n) => FieldView::Unsigned(n),
            Field::Other => FieldView::Other,
        }
    }
}

/// The members of a JSON value that is an object, by their names: `null`,
/// a string, a whole number that fits `u64`, or anything else. A value
/// that is no object has no members.
pub uninterp spec fn payload_members(payload: Value) -> Map<Seq<char>, FieldView>;

/// What a payload with these members holds under `name`.
pub open spec fn held(members: Map<Seq<char>, FieldView>, name: Seq<char>) -> FieldView {
    if members.contains_key(name) {
        members[name]
    } else {
        FieldView::Absent
    }
}

/// `serde_json::Value::get` with a name, and the variant of what it finds:
/// what `payload` holds under `name`, which is the member of that name
/// where the payload is an object that has one.
#[verifier::external_body]
pub(crate) fn field(payload: &Value, name: &str) -> (f: Field)
    ensures
        f@ == held(payload_members(*payload), name@),
{
    match payload.get(name) {
        None => Field::Absent,
        Some(Value::Null) => Field::Null,
        Some(Value::String(s)) => Field::Text(s.clone()),
        Some(Value::Number(n)) => n.as_u64().map_or(Field::Other, Field::Unsigned),
        Some(_) => Field::Other,
    }
}

/// Whether `token` passes the check that `jsonwebtoken` makes of a
/// signature with `secret` as the key: it has three parts, its first one
/// names HS256, and its last one is the signature of the first two.
pub uninterp spec fn signed_with(token: Seq<char>, secret: Seq<char>) -> bool;

/// The members of the JSON value that the middle part of `token` holds, as
/// `payload_members` gives them; `None` where the part holds no JSON.
pub uninterp spec fn carried_members(token: Seq<char>) -> Option<Map<Seq<char>, FieldView>>;

/// The members under which claims are written into a payload: the seven
/// claims under their names, an absent `nbf` as `null`.
pub open spec fn claim_members(c: ClaimsView) -> Map<Seq<char>, FieldView> {
    Map::<Seq<char>, FieldView>::empty().insert("sub"@, FieldView::Text(c.sub)).insert(
        "exp"@,
        FieldView::Unsigned(c.exp),
    ).insert("role"@, FieldView::Text(c.role)).insert("iss"@, FieldView::Text(c.iss)).insert(
        "aud"@,
        FieldView::Text(c.aud),
    ).insert("iat"@, FieldView::Unsigned(c.iat)).insert(
        "nbf"@,
        match c.nbf {
            Some(n) => FieldView::Unsigned(n),
            None => FieldView::Null,
        },
    )
}

} // verus!
