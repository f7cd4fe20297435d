//! The persistent state of one instance: two keyed values, each present or absent.

use vstd::prelude::*;

use crate::address::{Address, Identity};
use crate::admin::AdminSet;

verus! {

/// The key under which the admin set is kept.
pub const ADMINS_KEY: &'static str = "admins";

/// The key under which the receiver is kept. Its presence marks the instance as
/// initialised.
pub const RECEIVER_KEY: &'static str = "receiver";

/// The two values an instance keeps between calls.
#[derive(Debug, PartialEq, Eq)]
pub struct Storage {
    admins: Option<AdminSet>,
    receiver: Option<Address>,
}

/// What a `Storage` holds: under each key, the value or nothing.
pub struct StorageView {
    pub admins: Option<Seq<Identity>>,
    pub receiver: Option<Identity>,
}

impl StorageView {
    /// The storage of an instance on which nothing has been written.
    pub open spec fn empty() -> StorageView {
        StorageView { admins: None, receiver: None }
    }

    /// Whether the instance counts as initialised: the receiver is present.
    pub open spec fn is_initialized(self) -> bool {
        self.receiver is Some
    }

    /// Whether the two keys agree: both absent, or both present with two admins.
    pub open spec fn is_consistent(self) -> bool {
        &&& self.admins is Some <==> self.receiver is Some
        &&& self.admins is Some ==> self.admins->0.len() == 2
    }
}

impl View for Storage {
    type V = StorageView;

    closed spec fn view(&self) -> StorageView {
        StorageView { admins: self.admins.deep_view(), receiver: self.receiver.deep_view() }
    }
}

impl Storage {
    /// The storage of a fresh instance: both keys absent.
    pub fn new() -> (storage: Storage)
        ensures
            storage@ == StorageView::empty(),
    {
        Storage { admins: None, receiver: None }
    }

    /// The storage that holds the given values, as read back from where an instance
    /// keeps them. Either key may be present without the other.
    pub fn restore(admins: Option<AdminSet>, receiver: Option<Address>) -> (storage: Storage)
        ensures
            storage@ == (StorageView {
                admins: admins.deep_view(),
                receiver: receiver.deep_view(),
            }),
    {
        Storage { admins, receiver }
    }

    /// The stored admin set, if its key is present.
    pub fn admins(&self) -> (admins: Option<&AdminSet>)
        ensures
            admins.deep_view() == self@.admins,
    {
        self.admins.as_ref()
    }

    /// The stored receiver, if its key is present.
    pub fn receiver(&self) -> (receiver: Option<&Address>)
        ensures
            receiver.deep_view() == self@.receiver,
    {
        self.receiver.as_ref()
    }

    /// Whether the instance counts as initialised: the receiver key is present.
    pub fn is_initialized(&self) -> (initialized: bool)
        ensures
            initialized == self@.is_initialized(),
    {
        self.receiver.is_some()
    }

    /// Writes the admin set under its key.
    pub(crate) fn set_admins(&mut self, admins: AdminSet)
        ensures
            final(self)@ == (StorageView { admins: Some(admins@), ..old(self)@ }),
    {
        self.admins = Some(admins);
    }

    /// Writes the receiver under its key.
    pub(crate) fn set_receiver(&mut self, receiver: Address)
        ensures
            final(self)@ == (StorageView { receiver: Some(receiver@), ..old(self)@ }),
    {
        self.receiver = Some(receiver);
    }
}

} // verus!
