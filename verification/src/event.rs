//! What the ledger emits: the only record that a call ever leaves for readers off the chain.

use vstd::prelude::*;

use crate::address::{Address, Identity};

verus! {

/// The labelled values that describe a resource, in the order given; the ledger passes
/// them on as they are.
pub type Metadata = Vec<(String, Vec<u8>)>;

/// What `Metadata` holds: each label with its value.
pub type MetadataView = Seq<(Seq<char>, Seq<u8>)>;

/// An emitted event. The fields of each variant stand in the order in which the event
/// carries them.
#[derive(Debug, PartialEq, Eq)]
pub enum Event {
    /// The instance got its admins and its receiver.
    Init { admin1: Address, admin2: Address, receiver: Address },
    /// A resource passed from one holder to another.
    Trace {
        resource_id: Vec<u8>,
        from: Address,
        to: Address,
        timestamp: u64,
        metadata: Metadata,
    },
    /// An admin released an amount for a resource to the receiver.
    Release { resource_id: Vec<u8>, amount: i128, receiver: Address, timestamp: u64 },
}

/// What an `Event` holds.
pub enum EventView {
    Init { admin1: Identity, admin2: Identity, receiver: Identity },
    Trace {
        resource_id: Seq<u8>,
        from: Identity,
        to: Identity,
        timestamp: u64,
        metadata: MetadataView,
    },
    Release { resource_id: Seq<u8>, amount: i128, receiver: Identity, timestamp: u64 },
}

impl View for Event {
    type V = EventView;

    open spec fn view(&self) -> EventView {
        match *self {
            Event::Init { admin1, admin2, receiver } => EventView::Init {
                admin1: admin1@,
                admin2: admin2@,
                receiver: receiver@,
            },
            Event::Trace { resource_id, from, to, timestamp, metadata } => EventView::Trace {
                resource_id: resource_id@,
                from: from@,
                to: to@,
                timestamp,
                metadata: metadata.deep_view(),
            },
            Event::Release { resource_id, amount, receiver, timestamp } => EventView::Release {
                resource_id: resource_id@,
                amount,
                receiver: receiver@,
                timestamp,
            },
        }
    }
}

impl DeepView for Event {
    type V = EventView;

    open spec fn deep_view(&self) -> EventView {
        self@
    }
}

impl EventView {
    /// The name under which readers find events of this kind.
    pub open spec fn topic(self) -> Seq<char> {
        match self {
            EventView::Init { .. } => "init"@,
            EventView::Trace { .. } => "trace"@,
            EventView::Release { .. } => "release"@,
        }
    }
}

impl Event {
    /// The name under which readers find events of this kind: `init`, `trace` or
    /// `release`.
    pub fn topic(&self) -> (topic: &'static str)
        ensures
            topic@ == self@.topic(),
    {
        match self {
            Event::Init { .. } => "init",
            Event::Trace { .. } => "trace",
            Event::Release { .. } => "release",
        }
    }
}

} // verus!
