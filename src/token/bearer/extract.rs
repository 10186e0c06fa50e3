//! Taking the token out of an `Authorization` header.
use vstd::prelude::*;

use crate::error::Error;
use crate::text::{split_first, split_first_char};

verus! {

#[verifier::external_type_specification]
#[verifier::external_body]
pub struct ExHeaderValue(http::header::HeaderValue);

/// The bytes of a header value.
pub uninterp spec fn header_bytes(h: http::header::HeaderValue) -> Seq<u8>;

/// A byte that a header value may hold as text: visible ASCII or a tab.
pub open spec fn is_visible_byte(b: u8) -> bool {
    (32 <= b && b < 127) || b == 9
}

/// A header value's bytes as text, if every byte is visible ASCII or a tab.
pub open spec fn header_value_text(b: Seq<u8>) -> Option<Seq<char>> {
    if forall|i: int| 0 <= i < b.len() ==> is_visible_byte(#[trigger] b[i]) {
        Some(b.map_values(|x: u8| x as char))
    } else {
        None
    }
}

/// The token of a header value of the form `Bearer <token>`: exactly two parts
/// separated by one space, the first of them `Bearer`.
pub open spec fn bearer_token_of(value: Seq<char>) -> Option<Seq<char>> {
    match split_first(value, ' ') {
        Some(p) => if p.0 == "Bearer"@ && !p.1.contains(' ') {
            Some(p.1)
        } else {
            None
        },
        None => None,
    }
}

pub open spec fn unsupported_scheme_message() -> Seq<char> {
    "unsupported or invalid type of the authentication token"@
}

pub open spec fn invalid_header_message() -> Seq<char> {
    "invalid characters in the authorization header"@
}

/// Relies on `HeaderValue::to_str`: it gives the value's bytes as text when
/// every byte is visible ASCII or a tab, and fails otherwise.
#[verifier::external_body]
fn header_text(header: &http::header::HeaderValue) -> (r: Option<&str>)
    ensures
        match r {
            Some(s) => header_value_text(header_bytes(*header)) == Some(s@),
            None => header_value_text(header_bytes(*header)) is None,
        },
{
    header.to_str().ok()
}

/// The token of a header value written `Bearer <token>`.
pub fn parse_bearer_value(value: &str) -> (r: Result<&str, Error>)
    ensures
        match r {
            Ok(t) => bearer_token_of(value@) == Some(t@),
            Err(e) => bearer_token_of(value@) is None && e@ == unsupported_scheme_message(),
        },
{
    if let Some((scheme, token)) = split_first_char(value, ' ') {
        let bearer = String::from_str("Bearer");
        if scheme.to_owned().eq(&bearer) {
            if split_first_char(token, ' ').is_none() {
                return Ok(token);
            }
        }
    }
    Err(Error::new("unsupported or invalid type of the authentication token"))
}

/// The token of an `Authorization` header value written `Bearer <token>`.
pub fn parse_bearer_token(header: &http::header::HeaderValue) -> (r: Result<&str, Error>)
    ensures
        match header_value_text(header_bytes(*header)) {
            None => r matches Err(e) && e@ == invalid_header_message(),
            Some(v) => match bearer_token_of(v) {
                Some(t) => r matches Ok(s) && s@ == t,
                None => r matches Err(e) && e@ == unsupported_scheme_message(),
            },
        },
{
    match header_text(header) {
        None => Err(Error::new("invalid characters in the authorization header")),
        Some(value) => parse_bearer_value(value),
    }
}

} // verus!
