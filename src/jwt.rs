//! The calls into jsonwebtoken, with what the library relies on of each.
use vstd::prelude::*;

use crate::jose::{key_shape_of, Algorithm};
use crate::json::{json_members, JsonObject, JsonScalar};

verus! {

/// The members of the JSON object in the payload segment of a compact token,
/// read without checking the signature; `None` if the token does not have
/// three segments, or its header or payload does not decode.
pub uninterp spec fn unverified_members(token: Seq<char>) -> Option<Map<Seq<char>, JsonScalar>>;

/// The algorithm that the header segment of a compact token names; `None` if
/// the token has no header segment that decodes.
pub uninterp spec fn jws_header_alg(token: Seq<char>) -> Option<Algorithm>;

/// Whether the signature segment of a compact token signs the rest of it
/// under `alg`, with `key` read as that algorithm's key: an HMAC secret for
/// HS256, a DER-encoded EC public key for ES256.
pub uninterp spec fn jws_signature_valid(token: Seq<char>, alg: Algorithm, key: Seq<u8>) -> bool;

/// The compact token that HS256 signing with `key` makes of a JSON object with
/// these members.
pub uninterp spec fn hs256_token(members: Map<Seq<char>, JsonScalar>, key: Seq<u8>) -> Seq<char>;

/// Members that are strings, null or unsigned numbers only: such an object
/// reads back as it was written.
pub open spec fn flat_members(m: Map<Seq<char>, JsonScalar>) -> bool {
    forall|k: Seq<char>| #[trigger] m.contains_key(k) ==> !(m[k] is Other)
}

/// Whether the members name the expected issuer, if one is expected.
pub open spec fn issuer_matches(m: Map<Seq<char>, JsonScalar>, iss: Option<Seq<char>>) -> bool {
    match iss {
        None => true,
        Some(i) => m.contains_key("iss"@) && m["iss"@] == JsonScalar::Text(i),
    }
}

/// The view of an optional string.
pub open spec fn string_opt_view(o: Option<String>) -> Option<Seq<char>> {
    match o {
        Some(s) => Some(s@),
        None => None,
    }
}

/// Relies on jsonwebtoken's `encode`, under `Header::new(alg)` and the key
/// that `EncodingKey::from_secret` (HS256) or `from_ec_der` (ES256) makes of
/// the bytes. The payload segment of the token holds the object's members, as
/// `dangerous_insecure_decode` reads them back, and the header names `alg`.
/// HMAC signing cannot fail, and its token depends on the members and key
/// alone; checking it recomputes the same signature. A failure comes as the
/// text of jsonwebtoken's error.
#[verifier::external_body]
pub(crate) fn encode_object(
    alg: Algorithm,
    claims: &JsonObject,
    key: &[u8],
) -> (r: Result<String, String>)
    requires
        key_shape_of(alg) is Some,
        flat_members(json_members(*claims)),
    ensures
        r matches Ok(t) ==> unverified_members(t@) == Some(json_members(*claims)),
        r matches Ok(t) ==> jws_header_alg(t@) == Some(alg),
        r is Ok || alg != Algorithm::HS256,
        r matches Ok(t) ==> (alg == Algorithm::HS256 ==> t@ == hs256_token(json_members(*claims), key@)
            && jws_signature_valid(t@, alg, key@)),
{
    let (header, key) = match alg {
        Algorithm::HS256 => (jsonwebtoken::Algorithm::HS256, jsonwebtoken::EncodingKey::from_secret(key)),
        _ => (jsonwebtoken::Algorithm::ES256, jsonwebtoken::EncodingKey::from_ec_der(key)),
    };
    jsonwebtoken::encode(&jsonwebtoken::Header::new(header), claims, &key).map_err(|e| e.to_string())
}

/// `p` is the text of `token` before its last `.`.
pub open spec fn is_before_last_dot(token: Seq<char>, p: Seq<char>) -> bool {
    &&& p.len() < token.len()
    &&& token[p.len() as int] == '.'
    &&& p == token.subrange(0, p.len() as int)
    &&& !token.subrange(p.len() as int + 1, token.len() as int).contains('.')
}

/// Relies on jsonwebtoken's `dangerous_insecure_decode`, which reads the
/// payload without checking the signature: it ignores the text after the last
/// `.`, so putting another signature segment there reads the same.
#[verifier::external_body]
pub(crate) fn insecure_decode_object(token: &str) -> (r: Option<JsonObject>)
    ensures
        match r {
            Some(m) => unverified_members(token@) == Some(json_members(m)),
            None => unverified_members(token@) is None,
        },
        forall|p: Seq<char>, s2: Seq<char>|
            is_before_last_dot(token@, p) && !s2.contains('.') ==> #[trigger] unverified_members(
                p + seq!['.'] + s2,
            ) == match r {
                Some(m) => Some(json_members(m)),
                None => None,
            },
{
    jsonwebtoken::dangerous_insecure_decode::<JsonObject>(token).ok().map(|d| d.claims)
}

/// Relies on jsonwebtoken's `decode` with only `alg` allowed, the key that
/// `DecodingKey::from_secret` (HS256) or `from_ec_der` (ES256) makes of the
/// bytes, no expiry check, and `iss` as the expected issuer. It accepts the
/// token exactly when its header names `alg`, its signature is valid, its
/// payload decodes, and the payload's `iss` is the expected string; it then
/// gives the same payload as `dangerous_insecure_decode`. A failure comes as
/// the text of jsonwebtoken's error.
#[verifier::external_body]
pub(crate) fn decode_object(
    token: &str,
    alg: Algorithm,
    key: &[u8],
    iss: &Option<String>,
) -> (r: Result<JsonObject, String>)
    requires
        key_shape_of(alg) is Some,
    ensures
        r matches Ok(m) ==> unverified_members(token@) == Some(json_members(m)),
        r is Ok <==> {
            &&& jws_header_alg(token@) == Some(alg)
            &&& jws_signature_valid(token@, alg, key@)
            &&& unverified_members(token@) matches Some(m) && issuer_matches(m, string_opt_view(*iss))
        },
{
    let (a, k) = match alg {
        Algorithm::HS256 => (jsonwebtoken::Algorithm::HS256, jsonwebtoken::DecodingKey::from_secret(key)),
        _ => (jsonwebtoken::Algorithm::ES256, jsonwebtoken::DecodingKey::from_ec_der(key)),
    };
    let v = jsonwebtoken::Validation {
        validate_exp: false,
        iss: iss.clone(),
        algorithms: vec![a],
        ..jsonwebtoken::Validation::default()
    };
    jsonwebtoken::decode::<JsonObject>(token, &k, &v).map(|d| d.claims).map_err(|e| e.to_string())
}

} // verus!
