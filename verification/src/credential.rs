//! What a user presented at the front door, kept to be replayed upstream.
use vstd::prelude::*;

verus! {

/// What the user supplied at the front door, kept so it can be replayed to
/// the upstream game. Games hash the string to key save data, so even when
/// the user authenticated by public key, the string forwarded is the key's
/// text form, not the raw key.
#[derive(Debug)]
pub enum UserCredential {
    Password(String),
    PublicKey(String),
}

impl UserCredential {
    /// The text carried by either kind of credential.
    pub open spec fn spec_text(&self) -> Seq<char> {
        match self {
            UserCredential::Password(s) => s@,
            UserCredential::PublicKey(s) => s@,
        }
    }

    /// The credential's text, whatever its kind.
    pub fn as_str(&self) -> (s: &str)
        ensures
            s@ == self.spec_text(),
    {
        match self {
            UserCredential::Password(s) | UserCredential::PublicKey(s) => s.as_str(),
        }
    }

    /// A copy of this credential.
    pub fn duplicate(&self) -> (c: UserCredential)
        ensures
            c == *self,
    {
        match self {
            UserCredential::Password(s) => UserCredential::Password(s.clone()),
            UserCredential::PublicKey(s) => UserCredential::PublicKey(s.clone()),
        }
    }
}

impl Clone for UserCredential {
    fn clone(&self) -> (c: UserCredential)
        ensures
            c == *self,
    {
        self.duplicate()
    }
}

} // verus!
