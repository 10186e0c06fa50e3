//! Account identities: a label scoped to an audience.
use vstd::prelude::*;

use crate::error::Error;
use crate::jose::Claims;
use crate::text::{lemma_split_first_of, lemma_split_first_spec, split_first, split_first_char};
use crate::Authenticable;

verus! {

/// The abstract value of an [`AccountId`].
pub struct AccountIdView {
    pub label: Seq<char>,
    pub audience: Seq<char>,
}

/// The canonical text of an identity: `{label}.{audience}`.
pub open spec fn format_account(id: AccountIdView) -> Seq<char> {
    id.label + seq!['.'] + id.audience
}

/// The identity that a text denotes: the label is everything before the first
/// `.`, the audience everything after it, further dots included.
pub open spec fn parse_account(s: Seq<char>) -> Option<AccountIdView> {
    match split_first(s, '.') {
        Some(p) => Some(AccountIdView { label: p.0, audience: p.1 }),
        None => None,
    }
}

/// The message of the error for a text without a `.`.
pub open spec fn invalid_account_message(s: Seq<char>) -> Seq<char> {
    "invalid value for the application name: "@ + s
}

/// Formatting an identity whose label holds no `.` and parsing the text gives
/// back the same identity.
pub proof fn lemma_parse_format(id: AccountIdView)
    requires
        !id.label.contains('.'),
    ensures
        parse_account(format_account(id)) == Some(id),
{
    lemma_split_first_of(format_account(id), '.', id.label, id.audience);
}

/// Parsing a text and formatting the identity gives back the same text.
pub proof fn lemma_format_parse(s: Seq<char>)
    requires
        parse_account(s) is Some,
    ensures
        format_account(parse_account(s)->Some_0) == s,
{
    lemma_split_first_spec(s, '.');
}

/// An account identity: a label within an audience.
#[derive(Debug, Clone, PartialEq, Eq, Hash)]
pub struct AccountId {
    label: String,
    audience: String,
}

impl View for AccountId {
    type V = AccountIdView;

    closed spec fn view(&self) -> AccountIdView {
        AccountIdView { label: self.label@, audience: self.audience@ }
    }
}

impl AccountId {
    pub fn new(label: &str, audience: &str) -> (r: Self)
        ensures
            r@ == (AccountIdView { label: label@, audience: audience@ }),
    {
        AccountId { label: label.to_owned(), audience: audience.to_owned() }
    }

    pub fn label(&self) -> (r: &str)
        ensures
            r@ == self@.label,
    {
        self.label.as_str()
    }

    pub fn audience(&self) -> (r: &str)
        ensures
            r@ == self@.audience,
    {
        self.audience.as_str()
    }

    /// Parses the canonical text `{label}.{audience}`, splitting at the first `.`.
    pub fn parse(val: &str) -> (r: Result<AccountId, Error>)
        ensures
            match r {
                Ok(id) => parse_account(val@) == Some(id@),
                Err(e) => parse_account(val@) is None && e@ == invalid_account_message(val@),
            },
    {
        if let Some((label, audience)) = split_first_char(val, '.') {
            return Ok(AccountId::new(label, audience));
        }
        let mut msg = String::from_str("invalid value for the application name: ");
        msg.append(val);
        Err(Error::new(msg.as_str()))
    }

    /// The canonical text `{label}.{audience}`.
    pub fn to_string(&self) -> (r: String)
        ensures
            r@ == format_account(self@),
    {
        let mut s = self.label.clone();
        s.append(".");
        s.append(self.audience.as_str());
        proof {
            reveal_strlit(".");
        }
        s
    }

    /// The same label, delegated to a second audience: the new audience is the
    /// composite `{audience}:{cross_audience}`.
    pub fn delegate(&self, cross_audience: &str) -> (r: AccountId)
        ensures
            r@.label == self@.label,
            r@.audience == self@.audience + seq![':'] + cross_audience@,
    {
        let mut audience = self.audience.clone();
        audience.append(":");
        audience.append(cross_audience);
        proof {
            reveal_strlit(":");
            assert(":"@ =~= seq![':']);
        }
        AccountId { label: self.label.clone(), audience }
    }
}

impl core::str::FromStr for AccountId {
    type Err = Error;

    fn from_str(val: &str) -> Result<AccountId, Error> {
        AccountId::parse(val)
    }
}

impl AccountId {
    /// The identity that claims speak for: their subject within their audience.
    pub fn from_claims(claims: &Claims<String>) -> (r: AccountId)
        ensures
            r@ == (AccountIdView { label: claims@.sub, audience: claims@.aud }),
    {
        AccountId::new(claims.subject().as_str(), claims.audience())
    }
}

impl Authenticable for AccountId {
    open spec fn account_of(&self) -> AccountIdView {
        self@
    }

    fn as_account_id(&self) -> (r: &AccountId) {
        self
    }
}

} // verus!
