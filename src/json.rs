//! The claims payload as a JSON object, through serde_json's `Map`.
use vstd::prelude::*;

use crate::jose::{Claims, ClaimsView};
use crate::jwt::flat_members;

verus! {

#[verifier::external_type_specification]
#[verifier::external_body]
#[verifier::reject_recursive_types(K)]
#[verifier::reject_recursive_types(V)]
pub struct ExJsonMap<K, V>(serde_json::Map<K, V>);

#[verifier::external_type_specification]
#[verifier::external_body]
pub struct ExJsonValue(serde_json::Value);

/// A JSON object of serde_json, with string keys.
pub type JsonObject = serde_json::Map<String, serde_json::Value>;

/// What a member of a JSON object holds, as far as claims are concerned.
pub enum JsonScalar {
    Null,
    Text(Seq<char>),
    /// A number that fits in a `u64`.
    Unsigned(u64),
    /// Anything else: a boolean, another number, an array or an object.
    Other,
}

/// An executable copy of one member's [`JsonScalar`].
#[derive(Debug)]
pub enum JsonField {
    Null,
    Text(String),
    Unsigned(u64),
    Other,
}

impl View for JsonField {
    type V = JsonScalar;

    open spec fn view(&self) -> JsonScalar {
        match self {
            JsonField::Null => JsonScalar::Null,
            JsonField::Text(s) => JsonScalar::Text(s@),
            JsonField::Unsigned(n) => JsonScalar::Unsigned(*n),
            JsonField::Other => JsonScalar::Other,
        }
    }
}

/// The members of a JSON object, each seen as a [`JsonScalar`].
pub uninterp spec fn json_members(m: JsonObject) -> Map<Seq<char>, JsonScalar>;

/// Relies on `serde_json::Map::new`: the new object has no member.
#[verifier::external_body]
fn new_object() -> (r: JsonObject)
    ensures
        json_members(r).dom().is_empty(),
{
    serde_json::Map::new()
}

/// Relies on `serde_json::Map::insert`: the key now holds the string, and a
/// value it held before is replaced.
#[verifier::external_body]
fn insert_text(m: &mut JsonObject, key: &str, value: &str)
    ensures
        json_members(*final(m)) == json_members(*old(m)).insert(key@, JsonScalar::Text(value@)),
{
    m.insert(key.to_owned(), serde_json::Value::String(value.to_owned()));
}

/// Relies on `serde_json::Map::insert`: the key now holds the number, and a
/// value it held before is replaced.
#[verifier::external_body]
fn insert_unsigned(m: &mut JsonObject, key: &str, value: u64)
    ensures
        json_members(*final(m)) == json_members(*old(m)).insert(key@, JsonScalar::Unsigned(value)),
{
    m.insert(key.to_owned(), serde_json::Value::from(value));
}

/// Relies on `serde_json::Map::get`, and on `Value::as_u64` to tell a number
/// that fits in a `u64` from other numbers.
#[verifier::external_body]
fn member(m: &JsonObject, key: &str) -> (r: Option<JsonField>)
    ensures
        match r {
            Some(f) => json_members(*m).contains_key(key@) && json_members(*m)[key@] == f@,
            None => !json_members(*m).contains_key(key@),
        },
{
    match m.get(key) {
        None => None,
        Some(serde_json::Value::Null) => Some(JsonField::Null),
        Some(serde_json::Value::String(s)) => Some(JsonField::Text(s.clone())),
        Some(v) => match v.as_u64() {
            Some(n) => Some(JsonField::Unsigned(n)),
            None => Some(JsonField::Other),
        },
    }
}

/// The members that encode claims: `iss`, `aud` and `sub` as strings, and
/// `exp` as a number, present only when the claims expire.
pub open spec fn claims_members(c: ClaimsView<Seq<char>>) -> Map<Seq<char>, JsonScalar> {
    let base = Map::<Seq<char>, JsonScalar>::empty().insert("iss"@, JsonScalar::Text(c.iss)).insert(
        "aud"@,
        JsonScalar::Text(c.aud),
    ).insert("sub"@, JsonScalar::Text(c.sub));
    match c.exp {
        Some(e) => base.insert("exp"@, JsonScalar::Unsigned(e)),
        None => base,
    }
}

/// The string held by a member, if it is a string.
pub open spec fn text_member(m: Map<Seq<char>, JsonScalar>, key: Seq<char>) -> Option<Seq<char>> {
    if m.contains_key(key) {
        match m[key] {
            JsonScalar::Text(s) => Some(s),
            _ => None,
        }
    } else {
        None
    }
}

/// The claims that a JSON object encodes: `iss`, `aud` and `sub` must be
/// strings; `exp` may be absent or null (no expiry) or a `u64`. Other members
/// are ignored. `None` if the object encodes no claims.
pub open spec fn claims_of_members(m: Map<Seq<char>, JsonScalar>) -> Option<ClaimsView<Seq<char>>> {
    match (text_member(m, "iss"@), text_member(m, "aud"@), text_member(m, "sub"@)) {
        (Some(iss), Some(aud), Some(sub)) => {
            if !m.contains_key("exp"@) {
                Some(ClaimsView { iss, aud, sub, exp: None })
            } else {
                match m["exp"@] {
                    JsonScalar::Null => Some(ClaimsView { iss, aud, sub, exp: None }),
                    JsonScalar::Unsigned(e) => Some(ClaimsView { iss, aud, sub, exp: Some(e) }),
                    _ => None,
                }
            }
        },
        _ => None,
    }
}

/// The four claim keys are distinct.
pub proof fn lemma_claim_keys_distinct()
    ensures
        "iss"@ != "aud"@,
        "iss"@ != "sub"@,
        "iss"@ != "exp"@,
        "aud"@ != "sub"@,
        "aud"@ != "exp"@,
        "sub"@ != "exp"@,
{
    reveal_strlit("iss");
    reveal_strlit("aud");
    reveal_strlit("sub");
    reveal_strlit("exp");
    assert("iss"@[0] != "aud"@[0]);
    assert("iss"@[0] != "sub"@[0]);
    assert("iss"@[0] != "exp"@[0]);
    assert("aud"@[0] != "sub"@[0]);
    assert("aud"@[0] != "exp"@[0]);
    assert("sub"@[0] != "exp"@[0]);
}

/// Reading back the members that encode claims gives the same claims.
pub proof fn lemma_claims_members_round_trip(c: ClaimsView<Seq<char>>)
    ensures
        claims_of_members(claims_members(c)) == Some(c),
{
    lemma_claim_keys_distinct();
    let m = claims_members(c);
    assert(text_member(m, "iss"@) == Some(c.iss));
    assert(text_member(m, "aud"@) == Some(c.aud));
    assert(text_member(m, "sub"@) == Some(c.sub));
}

/// The members that encode claims are strings and numbers only.
pub proof fn lemma_claims_members_flat(c: ClaimsView<Seq<char>>)
    ensures
        flat_members(claims_members(c)),
{
    let m = claims_members(c);
    assert forall|k: Seq<char>| #[trigger] m.contains_key(k) implies !(m[k] is Other) by {
        if c.exp is Some && k == "exp"@ {
        } else if k == "sub"@ {
        } else if k == "aud"@ {
        } else {
        }
    }
}

/// The JSON object that encodes `claims`.
pub fn claims_to_object(claims: &Claims<String>) -> (r: JsonObject)
    ensures
        json_members(r) == claims_members(claims@),
{
    let mut m = new_object();
    assert(json_members(m) =~= Map::<Seq<char>, JsonScalar>::empty());
    insert_text(&mut m, "iss", claims.issuer());
    insert_text(&mut m, "aud", claims.audience());
    insert_text(&mut m, "sub", claims.subject().as_str());
    if let Some(e) = claims.expiration_time() {
        insert_unsigned(&mut m, "exp", e);
    }
    m
}

/// Reads a string member.
fn text_of(m: &JsonObject, key: &str) -> (r: Option<String>)
    ensures
        match r {
            Some(s) => text_member(json_members(*m), key@) == Some(s@),
            None => text_member(json_members(*m), key@) is None,
        },
{
    match member(m, key) {
        Some(JsonField::Text(s)) => Some(s),
        _ => None,
    }
}

/// The claims that a JSON object encodes, if it encodes any.
pub fn claims_from_object(m: &JsonObject) -> (r: Option<Claims<String>>)
    ensures
        match r {
            Some(c) => claims_of_members(json_members(*m)) == Some(c@),
            None => claims_of_members(json_members(*m)) is None,
        },
{
    let iss = text_of(m, "iss");
    let aud = text_of(m, "aud");
    let sub = text_of(m, "sub");
    match (iss, aud, sub) {
        (Some(iss), Some(aud), Some(sub)) => {
            let mut claims = Claims::new(iss.as_str(), aud.as_str(), sub);
            match member(m, "exp") {
                None | Some(JsonField::Null) => Some(claims),
                Some(JsonField::Unsigned(e)) => {
                    claims.set_expiration_time(e);
                    Some(claims)
                },
                _ => None,
            }
        },
        _ => None,
    }
}

} // verus!
