//! Signed compact tokens (JWS): building them, and reading them back under a
//! trust configuration.
use vstd::prelude::*;

use crate::account::{AccountId, AccountIdView};
use crate::error::SerializationError;
use crate::jose::{key_shape_of, Algorithm, Claims, ClaimsView};
use crate::json::{
    claims_members, claims_of_members, claims_to_object, lemma_claims_members_flat,
    lemma_claims_members_round_trip,
};
use crate::jwt::{encode_object, hs256_token, jws_header_alg, jws_signature_valid, unverified_members};
use crate::text::concat3;
use crate::Authenticable;

verus! {

/// The abstract value of a [`TokenBuilder`]: what has been set so far.
pub struct TokenBuilderView {
    pub issuer: Option<Seq<char>>,
    pub subject: Option<AccountIdView>,
    pub expires_in: Option<i64>,
    pub algorithm: Option<Algorithm>,
    pub key: Option<Seq<u8>>,
}

/// Gathers what a token needs, then signs it.
#[derive(Debug)]
pub struct TokenBuilder<'a> {
    issuer: Option<&'a str>,
    subject: Option<&'a AccountId>,
    expires_in: Option<i64>,
    algorithm: Option<Algorithm>,
    key: Option<&'a [u8]>,
}

impl<'a> View for TokenBuilder<'a> {
    type V = TokenBuilderView;

    closed spec fn view(&self) -> TokenBuilderView {
        TokenBuilderView {
            issuer: match self.issuer {
                Some(s) => Some(s@),
                None => None,
            },
            subject: match self.subject {
                Some(a) => Some(a@),
                None => None,
            },
            expires_in: self.expires_in,
            algorithm: self.algorithm,
            key: match self.key {
                Some(k) => Some(k@),
                None => None,
            },
        }
    }
}

/// The expiry of a token built at `now` (Unix seconds): `Some(None)` when none
/// was asked for, `Some(Some(t))` for `t = now + expires_in`, and `None` when
/// that instant lies before the epoch.
pub open spec fn expiration_at(now: i64, expires_in: Option<i64>) -> Option<Option<u64>> {
    match expires_in {
        None => Some(None),
        Some(v) => if now + v >= 0 {
            Some(Some((now + v) as u64))
        } else {
            None
        },
    }
}

/// The name of an algorithm, as a JWS header writes it.
pub open spec fn algorithm_name(alg: Algorithm) -> Seq<char> {
    match alg {
        Algorithm::HS256 => "HS256"@,
        Algorithm::HS384 => "HS384"@,
        Algorithm::HS512 => "HS512"@,
        Algorithm::ES256 => "ES256"@,
        Algorithm::ES384 => "ES384"@,
        Algorithm::RS256 => "RS256"@,
        Algorithm::RS384 => "RS384"@,
        Algorithm::RS512 => "RS512"@,
        Algorithm::PS256 => "PS256"@,
        Algorithm::PS384 => "PS384"@,
        Algorithm::PS512 => "PS512"@,
    }
}

pub open spec fn unsupported_algorithm_message(alg: Algorithm) -> Seq<char> {
    "unsupported algorithm "@ + algorithm_name(alg)
}

/// Why `build` fails on a builder at `now`, before anything is encoded;
/// `None` when nothing is missing or out of range.
pub open spec fn build_error(b: TokenBuilderView, now: i64) -> Option<Seq<char>> {
    if b.issuer is None {
        Some("invalid issuer"@)
    } else if b.subject is None {
        Some("missing subject"@)
    } else if b.algorithm is None {
        Some("missing algorithm"@)
    } else if b.key is None {
        Some("missing key"@)
    } else if expiration_at(now, b.expires_in) is None {
        Some("expiration out of range"@)
    } else if key_shape_of(b.algorithm->Some_0) is None {
        Some(unsupported_algorithm_message(b.algorithm->Some_0))
    } else {
        None
    }
}

/// The claims that a complete builder signs at `now`.
pub open spec fn built_claims(b: TokenBuilderView, now: i64) -> ClaimsView<Seq<char>> {
    ClaimsView {
        iss: b.issuer->Some_0,
        aud: b.subject->Some_0.audience,
        sub: b.subject->Some_0.label,
        exp: expiration_at(now, b.expires_in)->Some_0,
    }
}

/// The claims in the payload of a compact token, read without checking its
/// signature; `None` if the token has no such payload.
pub open spec fn unverified_claims(token: Seq<char>) -> Option<ClaimsView<Seq<char>>> {
    match unverified_members(token) {
        Some(m) => claims_of_members(m),
        None => None,
    }
}

/// What `build` gives on a builder at `now`: the error that a missing or bad
/// input calls for. Otherwise a token whose header names the builder's
/// algorithm and whose payload holds exactly the members of the builder's
/// claims (`exp` only when an expiry was set), or an encoding error. With
/// HS256 signing always succeeds, the token is the one that the members and
/// key determine, and its signature checks under the same key.
pub open spec fn build_outcome(
    b: TokenBuilderView,
    now: i64,
    r: Result<String, SerializationError>,
) -> bool {
    match build_error(b, now) {
        Some(msg) => r matches Err(e) && e@ == msg,
        None => {
            &&& r matches Ok(t) ==> {
                &&& unverified_members(t@) == Some(claims_members(built_claims(b, now)))
                &&& unverified_claims(t@) == Some(built_claims(b, now))
                &&& jws_header_alg(t@) == b.algorithm
            }
            &&& r matches Err(e) ==> (e@.len() >= encoding_error_prefix().len() && e@.subrange(
                0,
                encoding_error_prefix().len() as int,
            ) == encoding_error_prefix())
            &&& b.algorithm == Some(Algorithm::HS256) ==> (r matches Ok(t) && t@ == hs256_token(
                claims_members(built_claims(b, now)),
                b.key->Some_0,
            ) && jws_signature_valid(t@, Algorithm::HS256, b.key->Some_0))
        },
    }
}

pub open spec fn encoding_error_prefix() -> Seq<char> {
    "encoding error, "@
}

/// Relies on chrono's `Utc::now`: the current time in whole Unix seconds.
#[verifier::external_body]
pub(crate) fn now_timestamp() -> i64 {
    chrono::Utc::now().timestamp()
}

impl Algorithm {
    /// The name that a JWS header gives this algorithm.
    pub fn name(self) -> (r: &'static str)
        ensures
            r@ == algorithm_name(self),
    {
        match self {
            Algorithm::HS256 => "HS256",
            Algorithm::HS384 => "HS384",
            Algorithm::HS512 => "HS512",
            Algorithm::ES256 => "ES256",
            Algorithm::ES384 => "ES384",
            Algorithm::RS256 => "RS256",
            Algorithm::RS384 => "RS384",
            Algorithm::RS512 => "RS512",
            Algorithm::PS256 => "PS256",
            Algorithm::PS384 => "PS384",
            Algorithm::PS512 => "PS512",
        }
    }
}

impl<'a> TokenBuilder<'a> {
    pub fn new() -> (r: Self)
        ensures
            r@ == (TokenBuilderView {
                issuer: None,
                subject: None,
                expires_in: None,
                algorithm: None,
                key: None,
            }),
    {
        TokenBuilder { issuer: None, subject: None, expires_in: None, algorithm: None, key: None }
    }

    pub fn issuer(self, value: &'a str) -> (r: Self)
        ensures
            r@ == (TokenBuilderView { issuer: Some(value@), ..self@ }),
    {
        TokenBuilder { issuer: Some(value), ..self }
    }

    pub fn subject<A: Authenticable>(self, value: &'a A) -> (r: Self)
        ensures
            r@ == (TokenBuilderView { subject: Some(value.account_of()), ..self@ }),
    {
        TokenBuilder { subject: Some(value.as_account_id()), ..self }
    }

    pub fn expires_in(self, value: i64) -> (r: Self)
        ensures
            r@ == (TokenBuilderView { expires_in: Some(value), ..self@ }),
    {
        TokenBuilder { expires_in: Some(value), ..self }
    }

    pub fn key(self, algorithm: Algorithm, key: &'a [u8]) -> (r: Self)
        ensures
            r@ == (TokenBuilderView { algorithm: Some(algorithm), key: Some(key@), ..self@ }),
    {
        TokenBuilder { algorithm: Some(algorithm), key: Some(key), ..self }
    }

    /// Signs the token as of `now` (Unix seconds).
    pub fn build_at(self, now: i64) -> (r: Result<String, SerializationError>)
        ensures
            build_outcome(self@, now, r),
    {
        let issuer = match self.issuer {
            Some(v) => v,
            None => return Err(SerializationError::new("invalid issuer")),
        };
        let subject = match self.subject {
            Some(v) => v,
            None => return Err(SerializationError::new("missing subject")),
        };
        let algorithm = match self.algorithm {
            Some(v) => v,
            None => return Err(SerializationError::new("missing algorithm")),
        };
        let key = match self.key {
            Some(v) => v,
            None => return Err(SerializationError::new("missing key")),
        };
        let mut claims = Claims::new(issuer, subject.audience(), subject.label().to_owned());
        if let Some(value) = self.expires_in {
            let t: i128 = now as i128 + value as i128;
            if t < 0 {
                return Err(SerializationError::new("expiration out of range"));
            }
            claims.set_expiration_time(t as u64);
        }
        if algorithm.key_shape().is_none() {
            {
                let msg = concat3("unsupported algorithm ", algorithm.name(), "");
                proof {
                    reveal_strlit("");
                    assert(msg@ =~= unsupported_algorithm_message(algorithm));
                }
                return Err(SerializationError::new(msg.as_str()));
            }
        }
        proof {
            assert(claims@ == built_claims(self@, now));
            lemma_claims_members_round_trip(claims@);
            lemma_claims_members_flat(claims@);
        }
        let object = claims_to_object(&claims);
        match encode_object(algorithm, &object, key) {
            Ok(token) => Ok(token),
            Err(e) => {
                let msg = concat3("encoding error, ", e.as_str(), "");
                assert(msg@.subrange(0, encoding_error_prefix().len() as int) =~= encoding_error_prefix());
                Err(SerializationError::new(msg.as_str()))
            },
        }
    }

    /// Signs the token as of the current time.
    pub fn build(self) -> (r: Result<String, SerializationError>)
        ensures
            exists|now: i64| build_outcome(self@, now, r),
    {
        let now = now_timestamp();
        self.build_at(now)
    }
}

/// Two HS256 builds of builders with the same settings at the same second
/// give the same token, whatever order the setters were applied in.
pub proof fn lemma_hs256_build_deterministic(
    b: TokenBuilderView,
    now: i64,
    r1: Result<String, SerializationError>,
    r2: Result<String, SerializationError>,
)
    requires
        build_outcome(b, now, r1),
        build_outcome(b, now, r2),
        build_error(b, now) is None,
        b.algorithm == Some(Algorithm::HS256),
    ensures
        r1 matches Ok(t1) && r2 matches Ok(t2) && t1@ == t2@,
{
}

} // verus!

pub mod extract;
