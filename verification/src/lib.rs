//! Query resolution and secure delivery workflow of a command-line
//! credential manager: a free-text query is resolved against the stored
//! credentials to exactly one entry, with an interactive disambiguation
//! step when the query is ambiguous, and the chosen secret is released
//! through exactly one of two sanctioned channels (visible print or
//! clipboard).

use vstd::prelude::*;

pub mod delivery;
pub mod resolver;
pub mod selection;
pub mod set_master_password;
pub mod table;
pub mod uninstall;
pub mod text;

verus! {

/// One stored credential: the service name used as the matching key,
/// the account's username, and the secret value itself.
pub struct Credential {
    pub name: String,
    pub username: String,
    pub secret: SecretString,
}

/// A sensitive string value. It is kept behind a dedicated wrapper so
/// that every place the raw secret flows out of is an explicit,
/// intentional call to [`SecretString::expose`].
pub struct SecretString {
    value: String,
}

impl View for SecretString {
    type V = Seq<char>;

    closed spec fn view(&self) -> Seq<char> {
        self.value@
    }
}

impl SecretString {
    pub fn new(value: String) -> (s: SecretString)
        ensures
            s@ == value@,
    {
        SecretString { value }
    }

    /// The single sanctioned accessor for the raw secret material.
    pub fn expose(&self) -> (r: &String)
        ensures
            r@ == self@,
    {
        &self.value
    }

    /// An owned copy with the same secret value, for handing the secret
    /// to the clipboard subsystem without giving up the original.
    pub fn duplicate(&self) -> (r: SecretString)
        ensures
            r@ == self@,
    {
        SecretString { value: self.value.clone() }
    }
}

} // verus!
