//! Bearer tokens, as carried by an `Authorization` header.
use vstd::prelude::*;


verus! {

/// A token as text.
#[derive(Debug)]
pub struct Token {
    inner: String,
}

impl View for Token {
    type V = Seq<char>;

    closed spec fn view(&self) -> Seq<char> {
        self.inner@
    }
}

impl Token {
    pub fn new(inner: &str) -> (r: Self)
        ensures
            r@ == inner@,
    {
        Token { inner: inner.to_owned() }
    }

    pub fn as_str(&self) -> (r: &str)
        ensures
            r@ == self@,
    {
        self.inner.as_str()
    }
}

impl core::ops::Deref for Token {
    type Target = str;

    fn deref(&self) -> &str {
        self.inner.as_str()
    }
}

} // verus!

pub mod extract;
