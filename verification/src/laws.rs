//! What holds of an instance over any run of calls.
//!
//! The entry points are stated over `BlocksResources::spec_initialize`, `spec_log_trace`
//! and `spec_release_funds`. This module strings those into runs of transactions and
//! proves the laws that callers rely on: that an instance is initialised at most once and
//! keeps its admins and receiver from then on, that only admins get a call through, what
//! exactly a successful call emits, and that a refused call leaves no mark.

use vstd::prelude::*;

use crate::address::Identity;
use crate::contract::BlocksResources;
use crate::env::EnvView;
use crate::error::Error;
use crate::event::{EventView, MetadataView};
use crate::storage::StorageView;

verus! {

/// One call of an entry point, with its arguments.
pub enum Call {
    Initialize { admin1: Identity, admin2: Identity, receiver: Identity },
    LogTrace { resource_id: Seq<u8>, from: Identity, to: Identity, metadata: MetadataView },
    ReleaseFunds { resource_id: Seq<u8>, amount: i128 },
}

/// A call together with who makes it and at what ledger time.
pub struct Transaction {
    pub invoker: Identity,
    pub timestamp: u64,
    pub call: Call,
}

/// The environment after `tx`, and what `tx` returned. The storage and the events are
/// carried over from `env`; the caller and the ledger time are those of `tx`.
pub open spec fn apply(env: EnvView, tx: Transaction) -> (EnvView, Result<(), Error>) {
    let env = EnvView { invoker: tx.invoker, timestamp: tx.timestamp, ..env };
    match tx.call {
        Call::Initialize { admin1, admin2, receiver } => BlocksResources::spec_initialize(
            env,
            admin1,
            admin2,
            receiver,
        ),
        Call::LogTrace { resource_id, from, to, metadata } => BlocksResources::spec_log_trace(
            env,
            resource_id,
            from,
            to,
            metadata,
        ),
        Call::ReleaseFunds { resource_id, amount } => BlocksResources::spec_release_funds(
            env,
            resource_id,
            amount,
        ),
    }
}

/// The environment after the transactions `txs`, applied to `env` in order.
pub open spec fn run(env: EnvView, txs: Seq<Transaction>) -> EnvView
    decreases txs.len(),
{
    if txs.len() == 0 {
        env
    } else {
        apply(run(env, txs.drop_last()), txs.last()).0
    }
}

/// The environment in which the transaction at index `i` of `txs` runs.
pub open spec fn before(env: EnvView, txs: Seq<Transaction>, i: int) -> EnvView {
    run(env, txs.take(i))
}

/// The environment that the transaction at index `i` of `txs` leaves.
pub open spec fn after(env: EnvView, txs: Seq<Transaction>, i: int) -> EnvView {
    apply(before(env, txs, i), txs[i]).0
}

/// What the transaction at index `i` of `txs` returns.
pub open spec fn result_at(env: EnvView, txs: Seq<Transaction>, i: int) -> Result<(), Error> {
    apply(before(env, txs, i), txs[i]).1
}

/// Each transaction of a run starts where the one before it ended.
pub proof fn lemma_run_step(env: EnvView, txs: Seq<Transaction>, i: int)
    requires
        0 <= i < txs.len(),
    ensures
        before(env, txs, i + 1) == after(env, txs, i),
        before(env, txs, 0) == env,
{
    assert(txs.take(i + 1).drop_last() =~= txs.take(i));
    assert(txs.take(i + 1).last() == txs[i]);
}

/// A call does all or nothing. One that succeeds emits exactly one event, after those
/// emitted before. One that fails emits none and leaves the storage as it was.
pub proof fn lemma_all_or_nothing(env: EnvView, tx: Transaction)
    ensures
        apply(env, tx).1 is Ok ==> apply(env, tx).0.events.len() == env.events.len() + 1
            && apply(env, tx).0.events.drop_last() == env.events,
        apply(env, tx).1 is Err ==> apply(env, tx).0.events == env.events && apply(
            env,
            tx,
        ).0.storage == env.storage,
{
    let next = apply(env, tx).0;
    if apply(env, tx).1 is Ok {
        assert(next.events.drop_last() =~= env.events);
    }
}

/// Only `initialize` writes, and only once: on an initialised instance no call
/// changes the storage.
pub proof fn lemma_initialized_storage_is_final(env: EnvView, tx: Transaction)
    requires
        env.storage.is_initialized(),
    ensures
        apply(env, tx).0.storage == env.storage,
{
}

/// Whatever is called, the two keys stay in step: both absent, or both present with
/// exactly two admins.
pub proof fn lemma_consistency_is_kept(env: EnvView, txs: Seq<Transaction>)
    requires
        env.storage.is_consistent(),
    ensures
        run(env, txs).storage.is_consistent(),
    decreases txs.len(),
{
    if txs.len() > 0 {
        lemma_consistency_is_kept(env, txs.drop_last());
    }
}

/// From the moment an instance is initialised, its storage never changes again: it is
/// the same before every later transaction of the run.
pub proof fn lemma_storage_is_kept(env: EnvView, txs: Seq<Transaction>, i: int, j: int)
    requires
        0 <= i <= j <= txs.len(),
        before(env, txs, i).storage.is_initialized(),
    ensures
        before(env, txs, j).storage == before(env, txs, i).storage,
    decreases j - i,
{
    if i < j {
        lemma_storage_is_kept(env, txs, i, j - 1);
        lemma_run_step(env, txs, j - 1);
        lemma_initialized_storage_is_final(before(env, txs, j - 1), txs[j - 1]);
    }
}

/// An `initialize` that succeeds leaves the admins and the receiver that it was given,
/// and every later transaction of the run finds exactly those.
pub proof fn lemma_initialize_is_kept(env: EnvView, txs: Seq<Transaction>, i: int, j: int)
    requires
        0 <= i < j <= txs.len(),
        txs[i].call is Initialize,
        result_at(env, txs, i) is Ok,
    ensures
        before(env, txs, j).storage == (StorageView {
            admins: Some(seq![txs[i].call->admin1, txs[i].call->admin2]),
            receiver: Some(txs[i].call->Initialize_receiver),
        }),
{
    lemma_run_step(env, txs, i);
    lemma_storage_is_kept(env, txs, i + 1, j);
}

/// `initialize` succeeds at most once per instance. After one `initialize` of a run has
/// succeeded, every later one fails with `AlreadyInitialized`, emits nothing, and leaves
/// the admins and the receiver as the first one set them.
pub proof fn lemma_initialize_succeeds_at_most_once(
    env: EnvView,
    txs: Seq<Transaction>,
    i: int,
    j: int,
)
    requires
        0 <= i < j < txs.len(),
        txs[i].call is Initialize,
        result_at(env, txs, i) is Ok,
        txs[j].call is Initialize,
    ensures
        result_at(env, txs, j) == Err::<(), Error>(Error::AlreadyInitialized),
        after(env, txs, j).events == before(env, txs, j).events,
        after(env, txs, j).storage == after(env, txs, i).storage,
        after(env, txs, i).storage == (StorageView {
            admins: Some(seq![txs[i].call->admin1, txs[i].call->admin2]),
            receiver: Some(txs[i].call->Initialize_receiver),
        }),
{
    lemma_run_step(env, txs, i);
    lemma_initialize_is_kept(env, txs, i, j);
}

/// On an initialised instance, a caller who is not in the admin set gets nothing
/// through: `log_trace` and `release_funds` fail with `NotAuthorized`, and the
/// environment, its events among the rest, stays as it was.
pub proof fn lemma_stranger_is_refused(
    env: EnvView,
    resource_id: Seq<u8>,
    from: Identity,
    to: Identity,
    metadata: MetadataView,
    amount: i128,
)
    requires
        env.storage.is_initialized(),
        env.storage.admins is Some,
        !env.storage.admins.unwrap().contains(env.invoker),
    ensures
        BlocksResources::spec_log_trace(env, resource_id, from, to, metadata) == (
            env,
            Err::<(), Error>(Error::NotAuthorized),
        ),
        BlocksResources::spec_release_funds(env, resource_id, amount) == (
            env,
            Err::<(), Error>(Error::NotAuthorized),
        ),
{
}

/// For an admin, `log_trace` succeeds: it emits exactly one event, the `trace` of the
/// resource, the two holders, the ledger time of the call and the metadata as given,
/// and changes nothing else.
pub proof fn lemma_admin_records_trace(
    env: EnvView,
    resource_id: Seq<u8>,
    from: Identity,
    to: Identity,
    metadata: MetadataView,
)
    requires
        env.storage.admins is Some,
        env.storage.admins.unwrap().contains(env.invoker),
    ensures
        BlocksResources::spec_log_trace(env, resource_id, from, to, metadata) == (
            EnvView {
                events: env.events.push(
                    EventView::Trace { resource_id, from, to, timestamp: env.timestamp, metadata },
                ),
                ..env
            },
            Ok::<(), Error>(()),
        ),
{
}

/// For an admin of an initialised instance, `release_funds` succeeds whatever the
/// amount, negative and zero included: it emits exactly one event, the `release` of
/// that amount for the resource to the stored receiver at the ledger time of the call,
/// and changes nothing else.
pub proof fn lemma_admin_releases_funds(env: EnvView, resource_id: Seq<u8>, amount: i128)
    requires
        env.storage.is_initialized(),
        env.storage.admins is Some,
        env.storage.admins.unwrap().contains(env.invoker),
    ensures
        BlocksResources::spec_release_funds(env, resource_id, amount) == (
            EnvView {
                events: env.events.push(
                    EventView::Release {
                        resource_id,
                        amount,
                        receiver: env.storage.receiver.unwrap(),
                        timestamp: env.timestamp,
                    },
                ),
                ..env
            },
            Ok::<(), Error>(()),
        ),
{
}

/// The receiver of a release is the one that `initialize` set. Once an `initialize` of
/// a run has succeeded, a later `release_funds` by either admin that it named succeeds
/// and emits `release(resource_id, amount, receiver, timestamp)` with the receiver given
/// to that `initialize`.
pub proof fn lemma_release_goes_to_initial_receiver(
    env: EnvView,
    txs: Seq<Transaction>,
    i: int,
    j: int,
)
    requires
        0 <= i < j < txs.len(),
        txs[i].call is Initialize,
        result_at(env, txs, i) is Ok,
        txs[j].call is ReleaseFunds,
        txs[j].invoker == txs[i].call->admin1 || txs[j].invoker == txs[i].call->admin2,
    ensures
        result_at(env, txs, j) is Ok,
        after(env, txs, j).events == before(env, txs, j).events.push(
            EventView::Release {
                resource_id: txs[j].call->ReleaseFunds_resource_id,
                amount: txs[j].call->amount,
                receiver: txs[i].call->Initialize_receiver,
                timestamp: txs[j].timestamp,
            },
        ),
        after(env, txs, j).storage == before(env, txs, j).storage,
{
    lemma_initialize_is_kept(env, txs, i, j);
    let admins = seq![txs[i].call->admin1, txs[i].call->admin2];
    assert(admins[0] == txs[i].call->admin1 && admins[1] == txs[i].call->admin2);
}

/// A trace is recorded for either admin. Once an `initialize` of a run has succeeded, a
/// later `log_trace` by either admin that it named succeeds and emits
/// `trace(resource_id, from, to, timestamp, metadata)` with the arguments as given and
/// the ledger time of the call; the storage stays as it was.
pub proof fn lemma_trace_by_initial_admin(env: EnvView, txs: Seq<Transaction>, i: int, j: int)
    requires
        0 <= i < j < txs.len(),
        txs[i].call is Initialize,
        result_at(env, txs, i) is Ok,
        txs[j].call is LogTrace,
        txs[j].invoker == txs[i].call->admin1 || txs[j].invoker == txs[i].call->admin2,
    ensures
        result_at(env, txs, j) is Ok,
        after(env, txs, j).events == before(env, txs, j).events.push(
            EventView::Trace {
                resource_id: txs[j].call->LogTrace_resource_id,
                from: txs[j].call->from,
                to: txs[j].call->to,
                timestamp: txs[j].timestamp,
                metadata: txs[j].call->metadata,
            },
        ),
        after(env, txs, j).storage == before(env, txs, j).storage,
{
    lemma_initialize_is_kept(env, txs, i, j);
    let admins = seq![txs[i].call->admin1, txs[i].call->admin2];
    assert(admins[0] == txs[i].call->admin1 && admins[1] == txs[i].call->admin2);
}

/// Nobody else gets through. Once an `initialize` of a run has succeeded, a later
/// `log_trace` or `release_funds` by anyone but the two admins that it named fails with
/// `NotAuthorized`, emits nothing, and leaves the storage as it was.
pub proof fn lemma_stranger_after_initialize(
    env: EnvView,
    txs: Seq<Transaction>,
    i: int,
    j: int,
)
    requires
        0 <= i < j < txs.len(),
        txs[i].call is Initialize,
        result_at(env, txs, i) is Ok,
        txs[j].call is LogTrace || txs[j].call is ReleaseFunds,
        txs[j].invoker != txs[i].call->admin1,
        txs[j].invoker != txs[i].call->admin2,
    ensures
        result_at(env, txs, j) == Err::<(), Error>(Error::NotAuthorized),
        after(env, txs, j).events == before(env, txs, j).events,
        after(env, txs, j).storage == before(env, txs, j).storage,
{
    lemma_initialize_is_kept(env, txs, i, j);
}

/// Until an `initialize` has succeeded, nobody gets a call through. On a fresh
/// instance, a `log_trace` or a `release_funds` that no successful `initialize` comes
/// before fails with `NotInitialized`, whoever calls, and emits nothing.
pub proof fn lemma_uninitialized_refuses_all(env: EnvView, txs: Seq<Transaction>, j: int)
    requires
        env.storage == StorageView::empty(),
        0 <= j < txs.len(),
        forall|i: int|
            0 <= i < j ==> !(txs[i].call is Initialize && #[trigger] result_at(env, txs, i) is Ok),
        txs[j].call is LogTrace || txs[j].call is ReleaseFunds,
    ensures
        result_at(env, txs, j) == Err::<(), Error>(Error::NotInitialized),
        after(env, txs, j).events == before(env, txs, j).events,
        after(env, txs, j).storage == StorageView::empty(),
{
    lemma_stays_empty(env, txs, j);
}

/// A fresh instance stays as it is until an `initialize` succeeds.
pub proof fn lemma_stays_empty(env: EnvView, txs: Seq<Transaction>, j: int)
    requires
        env.storage == StorageView::empty(),
        0 <= j <= txs.len(),
        forall|i: int|
            0 <= i < j ==> !(txs[i].call is Initialize && #[trigger] result_at(env, txs, i) is Ok),
    ensures
        before(env, txs, j).storage == StorageView::empty(),
    decreases j,
{
    if j > 0 {
        lemma_stays_empty(env, txs, j - 1);
        lemma_run_step(env, txs, j - 1);
        assert(!(txs[j - 1].call is Initialize && result_at(env, txs, j - 1) is Ok));
    } else {
        assert(txs.take(0) =~= Seq::empty());
    }
}

} // verus!
