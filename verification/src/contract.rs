//! The three entry points of the custody ledger.
//!
//! An instance starts uninitialised. `initialize` names its two admins and its receiver,
//! once and for good. From then on an admin can record that a resource changed hands
//! (`log_trace`) and release an amount for a resource to the receiver (`release_funds`).
//! Neither moves anything: each emits an event, and the events are the record. A call
//! that is refused changes nothing and emits nothing.

use vstd::prelude::*;

use crate::address::{Address, Identity};
use crate::admin::AdminSet;
use crate::env::{Env, EnvView};
use crate::error::Error;
use crate::event::{Event, EventView, Metadata, MetadataView};
use crate::storage::StorageView;

verus! {

/// The custody ledger. It has no state of its own: all that an instance keeps is in the
/// storage of the `Env` that each entry point is given.
#[derive(Debug)]
pub struct BlocksResources;

impl BlocksResources {
    /// Whether the caller of `env` may act as an admin: `NotInitialized` while no admin
    /// set is stored, `NotAuthorized` when the caller is not in the stored one.
    pub open spec fn authorize(env: EnvView) -> Result<(), Error> {
        match env.storage.admins {
            None => Err(Error::NotInitialized),
            Some(admins) => if admins.contains(env.invoker) {
                Ok(())
            } else {
                Err(Error::NotAuthorized)
            },
        }
    }

    /// Whether the caller of `env` may release funds: `NotInitialized` while no receiver
    /// is stored, else as `authorize` decides.
    pub open spec fn authorize_release(env: EnvView) -> Result<(), Error> {
        if env.storage.is_initialized() {
            Self::authorize(env)
        } else {
            Err(Error::NotInitialized)
        }
    }

    /// What `initialize` makes of `env`, and what it returns.
    pub open spec fn spec_initialize(
        env: EnvView,
        admin1: Identity,
        admin2: Identity,
        receiver: Identity,
    ) -> (EnvView, Result<(), Error>) {
        if env.storage.is_initialized() {
            (env, Err(Error::AlreadyInitialized))
        } else {
            (
                env.store(
                    StorageView { admins: Some(seq![admin1, admin2]), receiver: Some(receiver) },
                ).emit(EventView::Init { admin1, admin2, receiver }),
                Ok(()),
            )
        }
    }

    /// What `log_trace` makes of `env`, and what it returns.
    pub open spec fn spec_log_trace(
        env: EnvView,
        resource_id: Seq<u8>,
        from: Identity,
        to: Identity,
        metadata: MetadataView,
    ) -> (EnvView, Result<(), Error>) {
        match Self::authorize(env) {
            Ok(()) => (
                env.emit(
                    EventView::Trace { resource_id, from, to, timestamp: env.timestamp, metadata },
                ),
                Ok(()),
            ),
            Err(error) => (env, Err(error)),
        }
    }

    /// What `release_funds` makes of `env`, and what it returns.
    pub open spec fn spec_release_funds(env: EnvView, resource_id: Seq<u8>, amount: i128) -> (
        EnvView,
        Result<(), Error>,
    ) {
        match Self::authorize_release(env) {
            Ok(()) => (
                env.emit(
                    EventView::Release {
                        resource_id,
                        amount,
                        receiver: env.storage.receiver.unwrap(),
                        timestamp: env.timestamp,
                    },
                ),
                Ok(()),
            ),
            Err(error) => (env, Err(error)),
        }
    }

    /// Names the two admins and the receiver of the instance.
    ///
    /// Fails with `AlreadyInitialized`, and changes nothing, if and only if a receiver
    /// is stored already. Otherwise it stores `[admin1, admin2]` as the admin set and
    /// `receiver` as the receiver, and emits the one event `init(admin1, admin2,
    /// receiver)`. Who calls does not matter.
    pub fn initialize(env: &mut Env, admin1: Address, admin2: Address, receiver: Address) -> (result:
        Result<(), Error>)
        ensures
            result == (if old(env)@.storage.is_initialized() {
                Err::<(), Error>(Error::AlreadyInitialized)
            } else {
                Ok(())
            }),
            result is Err ==> final(env)@ == old(env)@,
            result is Ok ==> final(env)@ == old(env)@.store(
                StorageView { admins: Some(seq![admin1@, admin2@]), receiver: Some(receiver@) },
            ).emit(EventView::Init { admin1: admin1@, admin2: admin2@, receiver: receiver@ }),
            (final(env)@, result) == Self::spec_initialize(
                old(env)@,
                admin1@,
                admin2@,
                receiver@,
            ),
    {
        if env.storage().is_initialized() {
            return Err(Error::AlreadyInitialized);
        }
        let admins = AdminSet::new(admin1.clone(), admin2.clone());
        env.write(admins, receiver.clone());
        env.emit(Event::Init { admin1, admin2, receiver });
        Ok(())
    }

    /// Records that the resource `resource_id` passed from `from` to `to`.
    ///
    /// Fails with `NotInitialized` if no admin set is stored, and with `NotAuthorized`
    /// if the caller is not in it; a failed call changes nothing. Otherwise it emits the
    /// one event `trace(resource_id, from, to, timestamp, metadata)`, with the ledger
    /// time of the call and the metadata as given, and leaves the storage as it was.
    pub fn log_trace(
        env: &mut Env,
        resource_id: Vec<u8>,
        from: Address,
        to: Address,
        metadata: Metadata,
    ) -> (result: Result<(), Error>)
        ensures
            result == Self::authorize(old(env)@),
            result is Err ==> final(env)@ == old(env)@,
            result is Ok ==> final(env)@ == old(env)@.emit(
                EventView::Trace {
                    resource_id: resource_id@,
                    from: from@,
                    to: to@,
                    timestamp: old(env)@.timestamp,
                    metadata: metadata.deep_view(),
                },
            ),
            (final(env)@, result) == Self::spec_log_trace(
                old(env)@,
                resource_id@,
                from@,
                to@,
                metadata.deep_view(),
            ),
    {
        match env.storage().admins() {
            None => {
                return Err(Error::NotInitialized);
            },
            Some(admins) => {
                if !admins.contains(env.invoker()) {
                    return Err(Error::NotAuthorized);
                }
            },
        }
        let timestamp: u64 = env.timestamp();
        env.emit(Event::Trace { resource_id, from, to, timestamp, metadata });
        Ok(())
    }

    /// Releases `amount` for the resource `resource_id` to the receiver.
    ///
    /// Fails with `NotInitialized` if no receiver or no admin set is stored, and with
    /// `NotAuthorized` if the caller is not in the admin set; a failed call changes
    /// nothing. Otherwise it emits the one event `release(resource_id, amount, receiver,
    /// timestamp)`, with the stored receiver and the ledger time of the call, and leaves
    /// the storage as it was. Any amount is taken, of either sign; nothing is paid by
    /// this call.
    pub fn release_funds(env: &mut Env, resource_id: Vec<u8>, amount: i128) -> (result: Result<
        (),
        Error,
    >)
        ensures
            result == Self::authorize_release(old(env)@),
            result is Err ==> final(env)@ == old(env)@,
            result is Ok ==> final(env)@ == old(env)@.emit(
                EventView::Release {
                    resource_id: resource_id@,
                    amount,
                    receiver: old(env)@.storage.receiver.unwrap(),
                    timestamp: old(env)@.timestamp,
                },
            ),
            (final(env)@, result) == Self::spec_release_funds(old(env)@, resource_id@, amount),
    {
        let receiver = match env.storage().receiver() {
            None => {
                return Err(Error::NotInitialized);
            },
            Some(receiver) => receiver.clone(),
        };
        match env.storage().admins() {
            None => {
                return Err(Error::NotInitialized);
            },
            Some(admins) => {
                if !admins.contains(env.invoker()) {
                    return Err(Error::NotAuthorized);
                }
            },
        }
        let timestamp: u64 = env.timestamp();
        env.emit(Event::Release { resource_id, amount, receiver, timestamp });
        Ok(())
    }
}

} // verus!
