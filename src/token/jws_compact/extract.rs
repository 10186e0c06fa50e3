//! Reading a compact token back: first without trust, to find the issuer's
//! configuration, then with its signature checked.
//!
//! An audience may be a composite `{home}:{delegated}`, as built by
//! `AccountId::delegate`. Such a token is accepted when its issuer allows the
//! home segment; the claims keep the whole composite audience.
use vstd::prelude::*;

use crate::error::{Error, SerializationError};
use crate::jose::{
    key_shape_of, Algorithm, Claims, ClaimsView, Config, ConfigMap, ConfigView, Validation,
};
use crate::json::{claims_from_object, claims_members, lemma_claim_keys_distinct, JsonScalar};
use crate::jwt::{
    decode_object, insecure_decode_object, is_before_last_dot, issuer_matches, jws_header_alg, jws_signature_valid,
    string_opt_view, unverified_members,
};
use crate::text::{concat3, lemma_split_first_of, split_first, split_first_char};
use crate::token::bearer::extract::{
    bearer_token_of, header_bytes, header_value_text, invalid_header_message, parse_bearer_token,
    unsupported_scheme_message,
};
use crate::token::jws_compact::{
    build_error, build_outcome, built_claims, now_timestamp, unsupported_algorithm_message,
    unverified_claims, TokenBuilderView,
};

verus! {

pub open spec fn invalid_claims_message() -> Seq<char> {
    "invalid claims of the authentication token"@
}

pub open spec fn unknown_issuer_message(iss: Seq<char>) -> Seq<char> {
    "issuer = "@ + iss + " of the authentication token is not allowed"@
}

pub open spec fn audience_not_allowed_message(aud: Seq<char>) -> Seq<char> {
    "audience = "@ + aud + " of the authentication token is not allowed"@
}

/// The home segment of an audience: the text before its first `:`, or the
/// whole audience if it holds no `:`.
pub open spec fn home_audience(aud: Seq<char>) -> Seq<char> {
    match split_first(aud, ':') {
        Some(p) => p.0,
        None => aud,
    }
}

/// Delegation keeps the home segment: the composite audience
/// `{audience}:{cross_audience}` is checked against the trust configuration as
/// `audience` itself, provided that one holds no `:`.
pub proof fn lemma_delegated_home_audience(audience: Seq<char>, cross_audience: Seq<char>)
    requires
        !audience.contains(':'),
    ensures
        home_audience(audience + seq![':'] + cross_audience) == audience,
{
    lemma_split_first_of(audience + seq![':'] + cross_audience, ':', audience, cross_audience);
}

/// Why the trust configuration refuses claims: their issuer is unknown, or the
/// home segment of their audience is not among the issuer's audiences. `None`
/// when it accepts them.
pub open spec fn policy_error(c: ClaimsView<Seq<char>>, authn: Map<Seq<char>, ConfigView>) -> Option<Seq<char>> {
    if !authn.contains_key(c.iss) {
        Some(unknown_issuer_message(c.iss))
    } else if !authn[c.iss].audience.contains(home_audience(c.aud)) {
        Some(audience_not_allowed_message(c.aud))
    } else {
        None
    }
}

/// The claims in a compact token, read without checking its signature. Their
/// only use is to find the configuration that the token is then checked with.
/// Another signature segment in place of the token's own reads the same.
pub fn parse_jws_compact(token: &str) -> (r: Result<Claims<String>, Error>)
    ensures
        match r {
            Ok(c) => unverified_claims(token@) == Some(c@),
            Err(e) => unverified_claims(token@) is None && e@ == invalid_claims_message(),
        },
        forall|p: Seq<char>, sig: Seq<char>|
            is_before_last_dot(token@, p) && !sig.contains('.') ==> #[trigger] unverified_claims(
                p + seq!['.'] + sig,
            ) == unverified_claims(token@),
{
    match insecure_decode_object(token) {
        Some(object) => match claims_from_object(&object) {
            Some(claims) => Ok(claims),
            None => Err(Error::new("invalid claims of the authentication token")),
        },
        None => Err(Error::new("invalid claims of the authentication token")),
    }
}

/// The home segment of an audience (see [`home_audience`]).
pub fn home_audience_of(aud: &str) -> (r: &str)
    ensures
        r@ == home_audience(aud@),
{
    match split_first_char(aud, ':') {
        Some((home, _)) => home,
        None => aud,
    }
}

/// The configuration that accepts `claims`: that of their issuer, provided it
/// allows the home segment of their audience.
pub fn config_for_claims<'a>(claims: &Claims<String>, authn: &'a ConfigMap) -> (r: Result<&'a Config, Error>)
    ensures
        match policy_error(claims@, authn@) {
            Some(msg) => r matches Err(e) && e@ == msg,
            None => r matches Ok(c) && c@ == authn@[claims@.iss],
        },
{
    let config = match authn.get(claims.issuer()) {
        Some(c) => c,
        None => {
            let msg = concat3("issuer = ", claims.issuer(), " of the authentication token is not allowed");
            return Err(Error::new(msg.as_str()));
        },
    };
    if !config.allows(home_audience_of(claims.audience())) {
        let msg = concat3("audience = ", claims.audience(), " of the authentication token is not allowed");
        return Err(Error::new(msg.as_str()));
    }
    Ok(config)
}

pub open spec fn verification_failed_prefix() -> Seq<char> {
    "verification of the authentication token failed – "@
}

pub open spec fn expired_message() -> Seq<char> {
    verification_failed_prefix() + "ExpiredSignature"@
}

pub open spec fn algorithm_mismatch_message() -> Seq<char> {
    verification_failed_prefix() + "InvalidAlgorithm"@
}

/// Whether jsonwebtoken accepts a token under `alg` and `key`: its header
/// names `alg`, its signature is valid, its payload decodes, and the payload
/// names the expected issuer, if one is expected.
pub open spec fn signature_accepted(
    token: Seq<char>,
    alg: Algorithm,
    key: Seq<u8>,
    iss: Option<Seq<char>>,
) -> bool {
    &&& jws_header_alg(token) == Some(alg)
    &&& jws_signature_valid(token, alg, key)
    &&& unverified_members(token) matches Some(m) && issuer_matches(m, iss)
}

/// Whether claims pass the expiry check at `now` (Unix seconds): when the
/// check applies, they must carry an `exp` that is not before `now`.
pub open spec fn expiry_holds(c: ClaimsView<Seq<char>>, validate_exp: bool, now: int) -> bool {
    !validate_exp || (c.exp matches Some(e) && now <= e)
}

/// What [`decode_jws_compact_at`] gives for a token checked at `now` with
/// `key` under `alg`, where the verifier expects the algorithm `expected`,
/// checks the expiry if `validate_exp`, and expects the issuer `iss`.
pub open spec fn decode_outcome(
    token: Seq<char>,
    expected: Algorithm,
    validate_exp: bool,
    iss: Option<Seq<char>>,
    key: Seq<u8>,
    alg: Algorithm,
    now: int,
    r: Result<Claims<String>, Error>,
) -> bool {
    if key_shape_of(alg) is None {
        r matches Err(e) && e@ == unsupported_algorithm_message(alg)
    } else if expected != alg {
        r matches Err(e) && e@ == algorithm_mismatch_message()
    } else if !signature_accepted(token, alg, key, iss) {
        r is Err
    } else {
        match unverified_claims(token) {
            None => r matches Err(e) && e@ == invalid_claims_message(),
            Some(c) => if expiry_holds(c, validate_exp, now) {
                r matches Ok(v) && v@ == c
            } else {
                r matches Err(e) && e@ == expired_message()
            },
        }
    }
}

/// Checks a compact token at `now` (Unix seconds): its signature with `key`
/// under `algorithm`, the algorithm and issuer that `verifier` expects, and
/// the expiry if `verifier` asks for it. Gives the token's claims.
pub fn decode_jws_compact_at(
    token: &str,
    verifier: &Validation,
    key: &[u8],
    algorithm: Algorithm,
    now: i64,
) -> (r: Result<Claims<String>, Error>)
    ensures
        decode_outcome(
            token@,
            verifier.algorithm,
            verifier.validate_exp,
            string_opt_view(verifier.iss),
            key@,
            algorithm,
            now as int,
            r,
        ),
{
    if algorithm.key_shape().is_none() {
        let msg = concat3("unsupported algorithm ", algorithm.name(), "");
        proof {
            reveal_strlit("");
            assert(msg@ =~= unsupported_algorithm_message(algorithm));
        }
        return Err(Error::new(msg.as_str()));
    }
    if verifier.algorithm != algorithm {
        let msg = concat3("verification of the authentication token failed – ", "InvalidAlgorithm", "");
        proof {
            reveal_strlit("");
            assert(msg@ =~= algorithm_mismatch_message());
        }
        return Err(Error::new(msg.as_str()));
    }
    let object = match decode_object(token, algorithm, key, &verifier.iss) {
        Ok(o) => o,
        Err(e) => {
            let msg = concat3("verification of the authentication token failed – ", e.as_str(), "");
            return Err(Error::new(msg.as_str()));
        },
    };
    let claims = match claims_from_object(&object) {
        Some(c) => c,
        None => return Err(Error::new("invalid claims of the authentication token")),
    };
    if verifier.validate_exp {
        let fresh = match claims.expiration_time() {
            Some(e) => now as i128 <= e as i128,
            None => false,
        };
        if !fresh {
            let msg = concat3("verification of the authentication token failed – ", "ExpiredSignature", "");
            proof {
                reveal_strlit("");
                assert(msg@ =~= expired_message());
            }
            return Err(Error::new(msg.as_str()));
        }
    }
    Ok(claims)
}

/// Checks a compact token at the current time (see [`decode_jws_compact_at`]).
pub fn decode_jws_compact(
    token: &str,
    verifier: &Validation,
    key: &[u8],
    algorithm: Algorithm,
) -> (r: Result<Claims<String>, Error>)
    ensures
        exists|now: i64|
            decode_outcome(
                token@,
                verifier.algorithm,
                verifier.validate_exp,
                string_opt_view(verifier.iss),
                key@,
                algorithm,
                now as int,
                r,
            ),
{
    let now = now_timestamp();
    decode_jws_compact_at(token, verifier, key, algorithm, now)
}

/// The checks that a token's own unverified claims call for under an issuer's
/// configuration: the configured algorithm, the claimed issuer, and the expiry
/// exactly when the claims carry one.
pub fn validation_for(claims: &Claims<String>, config: &Config) -> (r: Validation)
    ensures
        r.algorithm == config@.algorithm,
        r.validate_exp == claims@.exp is Some,
        string_opt_view(r.iss) == Some(claims@.iss),
{
    let mut v = Validation::new(config.algorithm());
    v.validate_exp = claims.expiration_time().is_some();
    v.iss = Some(claims.issuer().to_owned());
    v
}

/// What [`decode_jws_compact_with_config_at`] gives for a token checked at
/// `now` under a trust configuration.
pub open spec fn config_decode_outcome(
    token: Seq<char>,
    authn: Map<Seq<char>, ConfigView>,
    now: int,
    r: Result<Claims<String>, Error>,
) -> bool {
    match unverified_claims(token) {
        None => r matches Err(e) && e@ == invalid_claims_message(),
        Some(c0) => match policy_error(c0, authn) {
            Some(msg) => r matches Err(e) && e@ == msg,
            None => decode_outcome(
                token,
                authn[c0.iss].algorithm,
                c0.exp is Some,
                Some(c0.iss),
                authn[c0.iss].key,
                authn[c0.iss].algorithm,
                now,
                r,
            ),
        },
    }
}

/// Reads a compact token under a trust configuration at `now` (Unix seconds):
/// finds the configuration of the issuer that the token names, checks that it
/// allows the token's audience, then checks the signature with that
/// configuration's algorithm and key, the issuer, and the expiry if the token
/// carries one.
pub fn decode_jws_compact_with_config_at(token: &str, authn: &ConfigMap, now: i64) -> (r: Result<
    Claims<String>,
    Error,
>)
    ensures
        config_decode_outcome(token@, authn@, now as int, r),
{
    let claims = parse_jws_compact(token)?;
    let config = config_for_claims(&claims, authn)?;
    let verifier = validation_for(&claims, config);
    decode_jws_compact_at(token, &verifier, config.key().as_slice(), config.algorithm(), now)
}

/// Reads a compact token under a trust configuration at the current time (see
/// [`decode_jws_compact_with_config_at`]).
pub fn decode_jws_compact_with_config(token: &str, authn: &ConfigMap) -> (r: Result<Claims<String>, Error>)
    ensures
        exists|now: i64| config_decode_outcome(token@, authn@, now as int, r),
{
    let now = now_timestamp();
    decode_jws_compact_with_config_at(token, authn, now)
}

/// Reads the bearer token of an `Authorization` header under a trust
/// configuration (see [`decode_jws_compact_with_config`]).
pub fn extract_jws_compact(header: &http::header::HeaderValue, authn: &ConfigMap) -> (r: Result<
    Claims<String>,
    Error,
>)
    ensures
        match header_value_text(header_bytes(*header)) {
            None => r matches Err(e) && e@ == invalid_header_message(),
            Some(v) => match bearer_token_of(v) {
                None => r matches Err(e) && e@ == unsupported_scheme_message(),
                Some(t) => exists|now: i64| config_decode_outcome(t, authn@, now as int, r),
            },
        },
{
    let token = parse_bearer_token(header)?;
    decode_jws_compact_with_config(token, authn)
}

/// A token made by an HS256 builder, checked at `now` under a trust
/// configuration that knows its issuer and allows the home segment of its
/// audience: it verifies and gives back the built claims when the issuer is
/// trusted with HS256 and the same key and the token has not expired; it fails
/// when the issuer is trusted with another algorithm, and once it has expired.
pub proof fn lemma_built_token_verifies(
    b: TokenBuilderView,
    built_at: i64,
    r: Result<String, SerializationError>,
    authn: Map<Seq<char>, ConfigView>,
    now: int,
    v: Result<Claims<String>, Error>,
)
    requires
        build_outcome(b, built_at, r),
        build_error(b, built_at) is None,
        b.algorithm == Some(Algorithm::HS256),
        authn.contains_key(b.issuer->Some_0),
        authn[b.issuer->Some_0].audience.contains(home_audience(b.subject->Some_0.audience)),
        config_decode_outcome(r->Ok_0@, authn, now, v),
    ensures
        r is Ok,
        authn[b.issuer->Some_0].algorithm == Algorithm::HS256 && authn[b.issuer->Some_0].key
            == b.key->Some_0 && expiry_holds(
            built_claims(b, built_at),
            built_claims(b, built_at).exp is Some,
            now,
        ) ==> (v matches Ok(c) && c@ == built_claims(b, built_at)),
        authn[b.issuer->Some_0].algorithm != Algorithm::HS256 ==> v is Err,
        (built_claims(b, built_at).exp matches Some(e) && e < now) ==> v is Err,
{
    let c = built_claims(b, built_at);
    let m = claims_members(c);
    lemma_claim_keys_distinct();
    assert(m.contains_key("iss"@) && m["iss"@] == JsonScalar::Text(c.iss));
    assert(issuer_matches(m, Some(c.iss)));
}

} // verus!
