//! Claims, signing algorithms and the per-issuer trust configuration.
use vstd::prelude::*;

verus! {

/// The JWS signature algorithms that a token header can name.
#[allow(non_camel_case_types)]
#[derive(Debug, Clone, Copy, PartialEq, Eq, Hash, Structural)]
pub enum Algorithm {
    HS256,
    HS384,
    HS512,
    ES256,
    ES384,
    RS256,
    RS384,
    RS512,
    PS256,
    PS384,
    PS512,
}

/// The form that the key bytes of an algorithm take.
#[derive(Debug, Clone, Copy, PartialEq, Eq, Structural)]
pub enum KeyShape {
    /// A shared secret, used as it is.
    Secret,
    /// A DER-encoded elliptic-curve key.
    EcDer,
}

/// The key form of each supported algorithm; `None` for the others.
pub open spec fn key_shape_of(alg: Algorithm) -> Option<KeyShape> {
    match alg {
        Algorithm::HS256 => Some(KeyShape::Secret),
        Algorithm::ES256 => Some(KeyShape::EcDer),
        _ => None,
    }
}

impl Algorithm {
    /// The key form that this algorithm needs, if the library supports it.
    pub fn key_shape(self) -> (r: Option<KeyShape>)
        ensures
            r == key_shape_of(self),
    {
        match self {
            Algorithm::HS256 => Some(KeyShape::Secret),
            Algorithm::ES256 => Some(KeyShape::EcDer),
            _ => None,
        }
    }
}

/// The abstract value of a [`Config`].
pub struct ConfigView {
    pub audience: Set<Seq<char>>,
    pub algorithm: Algorithm,
    pub key: Seq<u8>,
}

/// What the library trusts of one issuer: the audiences it may name, the
/// algorithm it signs with and the key that checks its signatures.
#[derive(Debug, Clone)]
pub struct Config {
    audience: Vec<String>,
    algorithm: Algorithm,
    key: Vec<u8>,
}

/// The set of the views of a list of strings.
pub open spec fn string_set(v: Seq<String>) -> Set<Seq<char>> {
    Set::new(|a: Seq<char>| exists|i: int| 0 <= i < v.len() && #[trigger] v[i]@ == a)
}

impl View for Config {
    type V = ConfigView;

    closed spec fn view(&self) -> ConfigView {
        ConfigView { audience: string_set(self.audience@), algorithm: self.algorithm, key: self.key@ }
    }
}

impl Config {
    pub fn new(audience: Vec<String>, algorithm: Algorithm, key: Vec<u8>) -> (r: Self)
        ensures
            r@ == (ConfigView { audience: string_set(audience@), algorithm, key: key@ }),
    {
        Config { audience, algorithm, key }
    }

    pub fn audience(&self) -> (r: &Vec<String>)
        ensures
            string_set(r@) == self@.audience,
    {
        &self.audience
    }

    pub fn algorithm(&self) -> (r: Algorithm)
        ensures
            r == self@.algorithm,
    {
        self.algorithm
    }

    pub fn key(&self) -> (r: &Vec<u8>)
        ensures
            r@ == self@.key,
    {
        &self.key
    }

    /// Whether `audience` is one of the audiences this issuer may name.
    pub fn allows(&self, audience: &str) -> (r: bool)
        ensures
            r == self@.audience.contains(audience@),
    {
        let wanted = audience.to_owned();
        let mut i: usize = 0;
        while i < self.audience.len()
            invariant
                wanted@ == audience@,
                i <= self.audience@.len(),
                forall|j: int| 0 <= j < i ==> self.audience@[j]@ != audience@,
            decreases self.audience@.len() - i,
        {
            if self.audience[i].eq(&wanted) {
                assert(string_set(self.audience@).contains(audience@)) by {
                    assert(self.audience@[i as int]@ == audience@);
                }
                return true;
            }
            i += 1;
        }
        assert(!string_set(self.audience@).contains(audience@));
        false
    }
}

/// The map that a list of (issuer, config) entries denotes: a later entry for
/// an issuer replaces an earlier one.
pub open spec fn entries_map(s: Seq<(String, Config)>) -> Map<Seq<char>, ConfigView>
    decreases s.len(),
{
    if s.len() == 0 {
        Map::empty()
    } else {
        entries_map(s.drop_last()).insert(s.last().0@, s.last().1@)
    }
}

/// The trust configuration: one [`Config`] per issuer name.
#[derive(Debug, Clone)]
pub struct ConfigMap {
    entries: Vec<(String, Config)>,
}

impl View for ConfigMap {
    type V = Map<Seq<char>, ConfigView>;

    closed spec fn view(&self) -> Map<Seq<char>, ConfigView> {
        entries_map(self.entries@)
    }
}

impl ConfigMap {
    pub fn new() -> (r: Self)
        ensures
            r@ == Map::<Seq<char>, ConfigView>::empty(),
    {
        ConfigMap { entries: Vec::new() }
    }

    /// Trusts `issuer` with `config`, replacing what it was trusted with before.
    pub fn insert(&mut self, issuer: &str, config: Config)
        ensures
            final(self)@ == old(self)@.insert(issuer@, config@),
    {
        let ghost before = self.entries@;
        self.entries.push((issuer.to_owned(), config));
        assert(self.entries@.drop_last() =~= before);
    }

    /// The configuration of `issuer`, if it is trusted.
    pub fn get(&self, issuer: &str) -> (r: Option<&Config>)
        ensures
            match r {
                Some(c) => self@.contains_key(issuer@) && c@ == self@[issuer@],
                None => !self@.contains_key(issuer@),
            },
    {
        let wanted = issuer.to_owned();
        let n = self.entries.len();
        let mut i: usize = n;
        assert(self.entries@.subrange(0, n as int) =~= self.entries@);
        while i > 0
            invariant
                wanted@ == issuer@,
                n == self.entries@.len(),
                i <= n,
                entries_map(self.entries@.subrange(0, i as int)).contains_key(issuer@)
                    == self@.contains_key(issuer@),
                self@.contains_key(issuer@) ==> entries_map(self.entries@.subrange(0, i as int))[issuer@]
                    == self@[issuer@],
            decreases i,
        {
            let ghost prefix = self.entries@.subrange(0, i as int);
            assert(prefix.drop_last() =~= self.entries@.subrange(0, i - 1));
            if self.entries[i - 1].0.eq(&wanted) {
                return Some(&self.entries[i - 1].1);
            }
            i -= 1;
        }
        None
    }
}

/// The abstract value of [`Claims`].
pub struct ClaimsView<S> {
    pub iss: Seq<char>,
    pub aud: Seq<char>,
    pub sub: S,
    pub exp: Option<u64>,
}

/// The payload of a token: who issued it, for which audience, for which
/// subject, and until when (Unix seconds; `None` for never).
#[derive(Debug)]
pub struct Claims<T> {
    iss: String,
    aud: String,
    sub: T,
    exp: Option<u64>,
}

impl<T: View> View for Claims<T> {
    type V = ClaimsView<T::V>;

    open spec fn view(&self) -> ClaimsView<T::V> {
        ClaimsView {
            iss: self.spec_issuer(),
            aud: self.spec_audience(),
            sub: self.spec_subject()@,
            exp: self.spec_expiration(),
        }
    }
}

impl<T> Claims<T> {
    pub closed spec fn spec_issuer(&self) -> Seq<char> {
        self.iss@
    }

    pub closed spec fn spec_audience(&self) -> Seq<char> {
        self.aud@
    }

    pub closed spec fn spec_subject(&self) -> T {
        self.sub
    }

    pub closed spec fn spec_expiration(&self) -> Option<u64> {
        self.exp
    }

    pub fn new(iss: &str, aud: &str, sub: T) -> (r: Self)
        ensures
            r.spec_issuer() == iss@,
            r.spec_audience() == aud@,
            r.spec_subject() == sub,
            r.spec_expiration() is None,
    {
        Claims { iss: iss.to_owned(), aud: aud.to_owned(), sub, exp: None }
    }

    pub fn set_expiration_time(&mut self, value: u64) -> (r: &mut Self)
        ensures
            r.spec_issuer() == old(self).spec_issuer(),
            r.spec_audience() == old(self).spec_audience(),
            r.spec_subject() == old(self).spec_subject(),
            r.spec_expiration() == Some(value),
            *final(self) == *final(r),
    {
        self.exp = Some(value);
        self
    }

    pub fn issuer(&self) -> (r: &str)
        ensures
            r@ == self.spec_issuer(),
    {
        self.iss.as_str()
    }

    pub fn audience(&self) -> (r: &str)
        ensures
            r@ == self.spec_audience(),
    {
        self.aud.as_str()
    }

    pub fn subject(&self) -> (r: &T)
        ensures
            *r == self.spec_subject(),
    {
        &self.sub
    }

    pub fn expiration_time(&self) -> (r: Option<u64>)
        ensures
            r == self.spec_expiration(),
    {
        self.exp
    }
}

} // verus!

verus! {

/// What signature verification checks besides the signature itself.
#[derive(Debug, Clone)]
pub struct Validation {
    /// The algorithm that the token header must name.
    pub algorithm: Algorithm,
    /// Whether the token must carry an `exp` that is not in the past.
    pub validate_exp: bool,
    /// The issuer that the token must name, if any.
    pub iss: Option<String>,
}

impl Validation {
    /// Checks the algorithm and the expiry, and no issuer.
    pub fn new(algorithm: Algorithm) -> (r: Self)
        ensures
            r.algorithm == algorithm,
            r.validate_exp,
            r.iss is None,
    {
        Validation { algorithm, validate_exp: true, iss: None }
    }
}

} // verus!
