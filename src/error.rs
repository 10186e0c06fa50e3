//! The two kinds of failure that the library surfaces.
use vstd::prelude::*;

verus! {

/// A parse, configuration or validation failure, with a readable message.
#[derive(Debug)]
pub struct Error(String);

impl View for Error {
    type V = Seq<char>;

    closed spec fn view(&self) -> Seq<char> {
        self.0@
    }
}

impl Error {
    pub fn new(detail: &str) -> (r: Self)
        ensures
            r@ == detail@,
    {
        Error(detail.to_owned())
    }

    /// The message carried by this error.
    pub fn message(&self) -> (r: &str)
        ensures
            r@ == self@,
    {
        self.0.as_str()
    }
}

/// A failure to assemble or encode a token.
#[derive(Debug)]
pub struct SerializationError(String);

impl View for SerializationError {
    type V = Seq<char>;

    closed spec fn view(&self) -> Seq<char> {
        self.0@
    }
}

impl SerializationError {
    pub fn new(detail: &str) -> (r: Self)
        ensures
            r@ == detail@,
    {
        SerializationError(detail.to_owned())
    }

    /// The message carried by this error.
    pub fn message(&self) -> (r: &str)
        ensures
            r@ == self@,
    {
        self.0.as_str()
    }
}

} // verus!
