//! What a call runs in: the instance's storage, who calls and when, and the events
//! emitted so far.

use vstd::prelude::*;

use crate::address::{Address, Identity};
use crate::admin::AdminSet;
use crate::event::{Event, EventView};
use crate::storage::{Storage, StorageView};

verus! {

/// The surroundings of a call. Every entry point takes one: it reads the caller and the
/// ledger time from it, reads and writes the instance's storage through it, and appends
/// to it the events that it emits.
#[derive(Debug)]
pub struct Env {
    storage: Storage,
    invoker: Address,
    timestamp: u64,
    events: Vec<Event>,
}

/// What an `Env` holds.
pub struct EnvView {
    /// The instance's persistent state.
    pub storage: StorageView,
    /// The identity that makes the call.
    pub invoker: Identity,
    /// The ledger time of the transaction that the call belongs to.
    pub timestamp: u64,
    /// The events emitted so far, oldest first.
    pub events: Seq<EventView>,
}

impl EnvView {
    /// This environment after one more event was emitted.
    pub open spec fn emit(self, event: EventView) -> EnvView {
        EnvView { events: self.events.push(event), ..self }
    }

    /// This environment with other contents of the storage.
    pub open spec fn store(self, storage: StorageView) -> EnvView {
        EnvView { storage, ..self }
    }
}

impl View for Env {
    type V = EnvView;

    closed spec fn view(&self) -> EnvView {
        EnvView {
            storage: self.storage@,
            invoker: self.invoker@,
            timestamp: self.timestamp,
            events: self.events.deep_view(),
        }
    }
}

impl Env {
    /// The environment of a call by `invoker` at ledger time `timestamp` on the instance
    /// that keeps `storage`. No event has been emitted in it yet.
    pub fn new(storage: Storage, invoker: Address, timestamp: u64) -> (env: Env)
        ensures
            env@ == (EnvView {
                storage: storage@,
                invoker: invoker@,
                timestamp,
                events: Seq::empty(),
            }),
    {
        let env = Env { storage, invoker, timestamp, events: Vec::new() };
        assert(env.events.deep_view() =~= Seq::empty());
        env
    }

    /// The instance's storage.
    pub fn storage(&self) -> (storage: &Storage)
        ensures
            storage@ == self@.storage,
    {
        &self.storage
    }

    /// The identity that makes the call.
    pub fn invoker(&self) -> (invoker: &Address)
        ensures
            invoker@ == self@.invoker,
    {
        &self.invoker
    }

    /// The ledger time of the call.
    pub fn timestamp(&self) -> (timestamp: u64)
        ensures
            timestamp == self@.timestamp,
    {
        self.timestamp
    }

    /// The events emitted so far, oldest first.
    pub fn events(&self) -> (events: &Vec<Event>)
        ensures
            events.deep_view() == self@.events,
    {
        &self.events
    }

    /// Makes `invoker` the caller of the calls that follow.
    pub fn set_invoker(&mut self, invoker: Address)
        ensures
            final(self)@ == (EnvView { invoker: invoker@, ..old(self)@ }),
    {
        self.invoker = invoker;
    }

    /// Makes `timestamp` the ledger time of the calls that follow.
    pub fn set_timestamp(&mut self, timestamp: u64)
        ensures
            final(self)@ == (EnvView { timestamp, ..old(self)@ }),
    {
        self.timestamp = timestamp;
    }

    /// Appends `event` to the emitted events.
    pub(crate) fn emit(&mut self, event: Event)
        ensures
            final(self)@ == old(self)@.emit(event@),
    {
        self.events.push(event);
        assert(self.events.deep_view() =~= old(self).events.deep_view().push(event@));
    }

    /// Writes the admin set and the receiver under their keys.
    pub(crate) fn write(&mut self, admins: AdminSet, receiver: Address)
        ensures
            final(self)@ == old(self)@.store(
                StorageView { admins: Some(admins@), receiver: Some(receiver@) },
            ),
    {
        self.storage.set_admins(admins);
        self.storage.set_receiver(receiver);
    }
}

} // verus!
