//! Identities: the parties that own, receive and administer resources.

use vstd::prelude::*;

verus! {

/// What an identity is to the ledger: the text of its key. Two identities are the same
/// party exactly when their keys are the same text.
pub type Identity = Seq<char>;

/// An identity on the ledger, held by its textual key. The ledger never looks inside the
/// key: it only asks whether two keys are the same.
#[derive(Debug)]
pub struct Address {
    key: String,
}

impl View for Address {
    type V = Identity;

    closed spec fn view(&self) -> Identity {
        self.key@
    }
}

impl DeepView for Address {
    type V = Identity;

    open spec fn deep_view(&self) -> Identity {
        self@
    }
}

impl Address {
    /// The identity with the given key.
    pub fn new(key: &str) -> (address: Address)
        ensures
            address@ == key@,
    {
        Address { key: key.to_owned() }
    }

    /// The key of this identity.
    pub fn key(&self) -> (key: &str)
        ensures
            key@ == self@,
    {
        self.key.as_str()
    }
}

impl Clone for Address {
    fn clone(&self) -> (copy: Address)
        ensures
            copy == *self,
    {
        Address { key: self.key.clone() }
    }
}

impl PartialEq for Address {
    fn eq(&self, other: &Address) -> (same: bool) {
        self.key == other.key
    }
}

impl Eq for Address {}

impl vstd::std_specs::cmp::PartialEqSpecImpl for Address {
    open spec fn obeys_eq_spec() -> bool {
        true
    }

    open spec fn eq_spec(&self, other: &Address) -> bool {
        self@ == other@
    }
}

} // verus!
