use blocks_resources::address::Address;
use blocks_resources::admin::AdminSet;
use blocks_resources::contract::BlocksResources;
use blocks_resources::env::Env;
use blocks_resources::error::Error;
use blocks_resources::event::{Event, Metadata};
use blocks_resources::storage::{Storage, ADMINS_KEY, RECEIVER_KEY};

const A: &str = "GADMINAAAAAAAAAAAAAAAAAAAAAAAAAAAAAAAAAAAAAAAAAAAAAAAAAA";
const B: &str = "GADMINBBBBBBBBBBBBBBBBBBBBBBBBBBBBBBBBBBBBBBBBBBBBBBBBBB";
const R: &str = "GRECEIVERRRRRRRRRRRRRRRRRRRRRRRRRRRRRRRRRRRRRRRRRRRRRRRR";
const C: &str = "GSTRANGERCCCCCCCCCCCCCCCCCCCCCCCCCCCCCCCCCCCCCCCCCCCCCCC";

const T0: u64 = 1_700_000_000;

fn addr(key: &str) -> Address {
    Address::new(key)
}

fn fresh(invoker: &str) -> Env {
    Env::new(Storage::new(), addr(invoker), T0)
}

fn initialized(invoker: &str) -> Env {
    let mut env = fresh(invoker);
    assert_eq!(BlocksResources::initialize(&mut env, addr(A), addr(B), addr(R)), Ok(()));
    env
}

fn water() -> Metadata {
    vec![("tipo".to_string(), b"agua".to_vec())]
}

fn stored() -> Storage {
    Storage::restore(Some(AdminSet::new(addr(A), addr(B))), Some(addr(R)))
}

#[test]
fn initialize_stores_admins_and_receiver() {
    let mut env = fresh(C);
    assert!(!env.storage().is_initialized());
    assert_eq!(BlocksResources::initialize(&mut env, addr(A), addr(B), addr(R)), Ok(()));
    assert!(env.storage().is_initialized());
    assert_eq!(env.storage(), &stored());
    let admins = env.storage().admins().unwrap();
    assert_eq!(admins.first(), &addr(A));
    assert_eq!(admins.second(), &addr(B));
    assert_eq!(env.storage().receiver(), Some(&addr(R)));
}

#[test]
fn initialize_emits_one_init_event() {
    let env = initialized(A);
    assert_eq!(
        env.events(),
        &vec![Event::Init { admin1: addr(A), admin2: addr(B), receiver: addr(R) }]
    );
    assert_eq!(env.events()[0].topic(), "init");
}

#[test]
fn initialize_does_not_ask_who_calls() {
    let mut env = fresh(C);
    assert_eq!(BlocksResources::initialize(&mut env, addr(A), addr(B), addr(R)), Ok(()));
    assert_eq!(env.invoker(), &addr(C));
}

#[test]
fn second_initialize_fails_and_changes_nothing() {
    let mut env = initialized(A);
    let result = BlocksResources::initialize(&mut env, addr(C), addr(C), addr(C));
    assert_eq!(result, Err(Error::AlreadyInitialized));
    assert_eq!(env.storage(), &stored());
    assert_eq!(env.events().len(), 1);
}

#[test]
fn initialize_fails_on_every_later_attempt() {
    let mut env = initialized(A);
    for _ in 0..5 {
        assert_eq!(
            BlocksResources::initialize(&mut env, addr(A), addr(B), addr(R)),
            Err(Error::AlreadyInitialized)
        );
        assert_eq!(BlocksResources::release_funds(&mut env, b"RES_001".to_vec(), 1), Ok(()));
    }
    assert_eq!(env.storage(), &stored());
    assert_eq!(env.events().len(), 6);
}

#[test]
fn initialize_goes_by_the_receiver_key_alone() {
    let mut env = Env::new(Storage::restore(None, Some(addr(R))), addr(A), T0);
    assert_eq!(
        BlocksResources::initialize(&mut env, addr(A), addr(B), addr(R)),
        Err(Error::AlreadyInitialized)
    );
    assert_eq!(env.storage(), &Storage::restore(None, Some(addr(R))));
    assert!(env.events().is_empty());

    let mut env = Env::new(
        Storage::restore(Some(AdminSet::new(addr(C), addr(C))), None),
        addr(A),
        T0,
    );
    assert_eq!(BlocksResources::initialize(&mut env, addr(A), addr(B), addr(R)), Ok(()));
    assert_eq!(env.storage(), &stored());
}

#[test]
fn scenario_admin_logs_trace() {
    let mut env = initialized(A);
    let before = env.events().len();
    let result =
        BlocksResources::log_trace(&mut env, b"RES_001".to_vec(), addr(A), addr(B), water());
    assert_eq!(result, Ok(()));
    assert_eq!(env.events().len(), before + 1);
    assert_eq!(
        env.events()[before],
        Event::Trace {
            resource_id: b"RES_001".to_vec(),
            from: addr(A),
            to: addr(B),
            timestamp: T0,
            metadata: vec![("tipo".to_string(), b"agua".to_vec())],
        }
    );
    assert_eq!(env.events()[before].topic(), "trace");
    assert_eq!(env.storage(), &stored());
}

#[test]
fn scenario_stranger_cannot_release() {
    let mut env = initialized(C);
    let result = BlocksResources::release_funds(&mut env, b"RES_001".to_vec(), 100);
    assert_eq!(result, Err(Error::NotAuthorized));
    assert_eq!(env.events().len(), 1);
    assert_eq!(env.storage(), &stored());
}

#[test]
fn stranger_cannot_log_trace() {
    let mut env = initialized(C);
    let result =
        BlocksResources::log_trace(&mut env, b"RES_001".to_vec(), addr(A), addr(B), water());
    assert_eq!(result, Err(Error::NotAuthorized));
    assert_eq!(env.events().len(), 1);
    assert_eq!(env.storage(), &stored());
}

#[test]
fn receiver_is_no_admin() {
    let mut env = initialized(R);
    assert_eq!(
        BlocksResources::release_funds(&mut env, b"RES_001".to_vec(), 100),
        Err(Error::NotAuthorized)
    );
    assert_eq!(
        BlocksResources::log_trace(&mut env, b"RES_001".to_vec(), addr(A), addr(B), water()),
        Err(Error::NotAuthorized)
    );
    assert_eq!(env.events().len(), 1);
}

#[test]
fn either_admin_may_call() {
    let mut env = initialized(A);
    assert_eq!(BlocksResources::release_funds(&mut env, b"RES_001".to_vec(), 5), Ok(()));
    env.set_invoker(addr(B));
    assert_eq!(BlocksResources::release_funds(&mut env, b"RES_002".to_vec(), 6), Ok(()));
    assert_eq!(
        BlocksResources::log_trace(&mut env, b"RES_002".to_vec(), addr(B), addr(C), vec![]),
        Ok(())
    );
    assert_eq!(env.events().len(), 4);
}

#[test]
fn release_names_the_stored_receiver() {
    let mut env = initialized(B);
    env.set_timestamp(T0 + 60);
    assert_eq!(BlocksResources::release_funds(&mut env, b"RES_001".to_vec(), 100), Ok(()));
    assert_eq!(env.events().len(), 2);
    assert_eq!(
        env.events()[1],
        Event::Release {
            resource_id: b"RES_001".to_vec(),
            amount: 100,
            receiver: addr(R),
            timestamp: T0 + 60,
        }
    );
    assert_eq!(env.events()[1].topic(), "release");
    assert_eq!(env.storage(), &stored());
}

#[test]
fn release_takes_any_amount() {
    for amount in [0i128, -1, -10_000_000, i128::MIN, i128::MAX] {
        let mut env = initialized(A);
        assert_eq!(BlocksResources::release_funds(&mut env, b"RES_001".to_vec(), amount), Ok(()));
        assert_eq!(
            env.events()[1],
            Event::Release {
                resource_id: b"RES_001".to_vec(),
                amount,
                receiver: addr(R),
                timestamp: T0,
            }
        );
    }
}

#[test]
fn trace_carries_ledger_time_of_the_call() {
    let mut env = initialized(A);
    env.set_timestamp(42);
    assert_eq!(env.timestamp(), 42);
    assert_eq!(
        BlocksResources::log_trace(&mut env, b"RES_001".to_vec(), addr(A), addr(B), water()),
        Ok(())
    );
    env.set_timestamp(u64::MAX);
    assert_eq!(
        BlocksResources::log_trace(&mut env, b"RES_001".to_vec(), addr(B), addr(C), water()),
        Ok(())
    );
    match (&env.events()[1], &env.events()[2]) {
        (Event::Trace { timestamp: first, .. }, Event::Trace { timestamp: second, .. }) => {
            assert_eq!(*first, 42);
            assert_eq!(*second, u64::MAX);
        }
        other => panic!("not two traces: {:?}", other),
    }
}

#[test]
fn trace_passes_metadata_on_as_given() {
    let metadata: Metadata = vec![
        ("tipo".to_string(), b"agua".to_vec()),
        ("cantidad".to_string(), b"100L".to_vec()),
        ("tipo".to_string(), vec![]),
        ("".to_string(), vec![0, 255, 10]),
    ];
    let mut env = initialized(A);
    assert_eq!(
        BlocksResources::log_trace(&mut env, vec![], addr(C), addr(C), metadata.clone()),
        Ok(())
    );
    assert_eq!(
        env.events()[1],
        Event::Trace { resource_id: vec![], from: addr(C), to: addr(C), timestamp: T0, metadata }
    );
}

#[test]
fn nothing_works_before_initialize() {
    for caller in [A, B, R, C] {
        let mut env = fresh(caller);
        assert_eq!(
            BlocksResources::log_trace(&mut env, b"RES_001".to_vec(), addr(A), addr(B), water()),
            Err(Error::NotInitialized)
        );
        assert_eq!(
            BlocksResources::release_funds(&mut env, b"RES_001".to_vec(), 100),
            Err(Error::NotInitialized)
        );
        assert!(env.events().is_empty());
        assert_eq!(env.storage(), &Storage::new());
    }
}

#[test]
fn release_needs_both_keys() {
    let mut env = Env::new(
        Storage::restore(Some(AdminSet::new(addr(A), addr(B))), None),
        addr(A),
        T0,
    );
    assert_eq!(
        BlocksResources::release_funds(&mut env, b"RES_001".to_vec(), 100),
        Err(Error::NotInitialized)
    );
    assert_eq!(
        BlocksResources::log_trace(&mut env, b"RES_001".to_vec(), addr(A), addr(B), water()),
        Ok(())
    );

    let mut env = Env::new(Storage::restore(None, Some(addr(R))), addr(A), T0);
    assert_eq!(
        BlocksResources::release_funds(&mut env, b"RES_001".to_vec(), 100),
        Err(Error::NotInitialized)
    );
    assert_eq!(
        BlocksResources::log_trace(&mut env, b"RES_001".to_vec(), addr(A), addr(B), water()),
        Err(Error::NotInitialized)
    );
    assert!(env.events().is_empty());
}

#[test]
fn same_identity_may_be_named_twice() {
    let mut env = fresh(A);
    assert_eq!(BlocksResources::initialize(&mut env, addr(A), addr(A), addr(A)), Ok(()));
    assert_eq!(BlocksResources::release_funds(&mut env, b"RES_001".to_vec(), 1), Ok(()));
    env.set_invoker(addr(B));
    assert_eq!(
        BlocksResources::release_funds(&mut env, b"RES_001".to_vec(), 1),
        Err(Error::NotAuthorized)
    );
}

#[test]
fn admin_set_membership() {
    let admins = AdminSet::new(addr(A), addr(B));
    assert!(admins.contains(&addr(A)));
    assert!(admins.contains(&addr(B)));
    assert!(!admins.contains(&addr(R)));
    assert!(!admins.contains(&addr("")));
    assert_eq!(admins.clone(), admins);
}

#[test]
fn addresses_are_compared_by_key() {
    assert_eq!(addr(A), addr(A));
    assert_ne!(addr(A), addr(B));
    assert_ne!(addr("GA"), addr("ga"));
    assert_eq!(addr(A).key(), A);
    assert_eq!(addr(A).clone(), addr(A));
}

#[test]
fn error_codes() {
    assert_eq!(Error::NotAuthorized.code(), 1);
    assert_eq!(Error::NotInitialized.code(), 2);
    assert_eq!(Error::AlreadyInitialized.code(), 3);
}

#[test]
fn storage_keys() {
    assert_eq!(ADMINS_KEY, "admins");
    assert_eq!(RECEIVER_KEY, "receiver");
}

#[test]
fn new_env_has_no_events() {
    let env = Env::new(stored(), addr(A), 7);
    assert!(env.events().is_empty());
    assert_eq!(env.timestamp(), 7);
    assert_eq!(env.invoker(), &addr(A));
    assert_eq!(env.storage(), &stored());
}
