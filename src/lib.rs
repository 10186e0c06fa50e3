//! Issuing and verifying signed account tokens.
use vstd::prelude::*;

pub mod account;
pub mod error;
pub mod expiry;
pub mod jose;
pub mod json;
pub mod jwt;
pub mod text;
pub mod token;

pub use account::AccountId;
pub use error::{Error, SerializationError};

verus! {

/// A value that stands for an account identity.
pub trait Authenticable: Sync + Send {
    /// The identity this value stands for.
    spec fn account_of(&self) -> account::AccountIdView;

    fn as_account_id(&self) -> (r: &AccountId)
        ensures
            r@ == self.account_of(),
    ;
}

} // verus!
