use mssf_core::kvstore::{
    decimal_string, get_addr, next_round, round_key, round_value, stop_outcome, store_name,
    Factory, LocalStoreKind, LoopEvent, LoopStep, Replica, ReplicaProxy, RoundStep, RunSingle,
    Service,
    StopOutcome, StoreAction, COMMIT_TIMEOUT_MS, FABRIC_REPLICATOR_ADDRESS, LOOP_PAUSE_SECONDS,
};
use mssf_core::runtime::lifecycle::ReplicaRole;
use std::cell::Cell;
use std::rc::Rc;
use windows_core::{GUID, HSTRING};

struct Store {
    aborts: Rc<Cell<u32>>,
}

impl ReplicaProxy for Store {
    fn abort(&self) {
        self.aborts.set(self.aborts.get() + 1);
    }
}

#[test]
fn address_is_host_colon_port() {
    assert_eq!(get_addr(1234, &HSTRING::from("localhost")), "localhost:1234");
    assert_eq!(get_addr(0, &HSTRING::from("h")), "h:0");
    assert_eq!(get_addr(u32::MAX, &HSTRING::new()), ":4294967295");
    assert_eq!(get_addr(10, &HSTRING::from("a.b")), "a.b:10");
}

#[test]
fn replicator_settings_hold_the_local_address() {
    let factory = Factory::create(19000, "rt");
    assert_eq!(*factory.rt(), "rt");
    let settings = factory.replicator_settings();
    assert_eq!(FABRIC_REPLICATOR_ADDRESS, 4);
    assert_eq!(settings.flags, 4);
    assert_eq!(settings.replicator_address, HSTRING::from("localhost:19000"));
}

#[test]
fn loop_rounds() {
    assert_eq!(LOOP_PAUSE_SECONDS, 10);
    assert_eq!(next_round(0, LoopEvent::Tick), LoopStep::Continue(1));
    assert_eq!(next_round(41, LoopEvent::Tick), LoopStep::Continue(42));
    assert_eq!(
        next_round(u64::MAX, LoopEvent::Tick),
        LoopStep::Continue(u64::MAX)
    );
    assert_eq!(next_round(3, LoopEvent::StopRequested), LoopStep::Break);
}

#[test]
fn stop_outcomes() {
    assert_eq!(stop_outcome(true), StopOutcome::Signalled);
    assert_eq!(stop_outcome(false), StopOutcome::LoopGone);
}

#[test]
fn service_stops_the_loop_it_started() {
    let mut svc = Service::new("store", "rt");
    assert_eq!(*svc.kvproxy(), "store");
    assert_eq!(*svc.rt(), "rt");
    assert!(!svc.running());
    assert_eq!(svc.stop(), StopOutcome::NotRunning);

    let (old, listener) = svc.start_loop();
    assert_eq!(old, StopOutcome::NotRunning);
    assert_eq!(listener.id(), 0);
    let mut rx = listener.into_receiver();
    assert!(svc.running());
    assert!(rx.try_recv().is_err());
    assert_eq!(svc.stop(), StopOutcome::Signalled);
    assert!(!svc.running());
    assert_eq!(rx.try_recv(), Ok(()));
    assert_eq!(svc.stop(), StopOutcome::NotRunning);
}

#[test]
fn starting_again_stops_the_old_loop() {
    let mut svc = Service::new(1u8, 2u8);
    let (_, first) = svc.start_loop();
    assert_eq!(first.id(), 0);
    let mut first = first.into_receiver();
    let (old, second) = svc.start_loop();
    assert_eq!(old, StopOutcome::Signalled);
    assert_eq!(second.id(), 1);
    let mut second = second.into_receiver();
    assert_eq!(first.try_recv(), Ok(()));
    assert!(second.try_recv().is_err());
    assert!(svc.running());
    drop(second);
    assert_eq!(svc.stop(), StopOutcome::LoopGone);
    let (old, third) = svc.start_loop();
    assert_eq!(old, StopOutcome::NotRunning);
    assert_eq!(third.id(), 2);
    assert_eq!(svc.stop(), StopOutcome::Signalled);
    assert_eq!(third.into_receiver().try_recv(), Ok(()));
}

#[test]
fn replica_runs_the_loop_only_as_primary() {
    let aborts = Rc::new(Cell::new(0));
    let store = Store {
        aborts: aborts.clone(),
    };
    let mut replica = Replica::new(store, Service::new("kv", "rt"));
    let (addr, started) = replica.change_role(Ok(HSTRING::from("a:1")), ReplicaRole::IdleSecondary);
    assert_eq!(addr, Ok(HSTRING::from("a:1")));
    assert!(started.is_none());
    let (_, started) = replica.change_role(Ok(HSTRING::new()), ReplicaRole::ActiveSecondary);
    assert!(started.is_none());
    assert!(!replica.svc().running());
    let (addr, started) = replica.change_role(Ok(HSTRING::from("a:2")), ReplicaRole::Primary);
    assert_eq!(addr, Ok(HSTRING::from("a:2")));
    let listener = started.unwrap();
    assert_eq!(listener.id(), 0);
    let mut rx = listener.into_receiver();
    assert!(replica.svc().running());
    let (_, started) = replica.change_role(Ok(HSTRING::new()), ReplicaRole::ActiveSecondary);
    assert!(started.is_none());
    assert!(replica.svc().running());
    assert_eq!(replica.close(), StopOutcome::Signalled);
    assert_eq!(rx.try_recv(), Ok(()));
    assert!(!replica.svc().running());
    assert_eq!(replica.close(), StopOutcome::NotRunning);
    assert_eq!(aborts.get(), 0);
    assert_eq!(replica.kv().aborts.get(), 0);
}

#[test]
fn failed_change_of_role_starts_no_loop() {
    let store = Store {
        aborts: Rc::new(Cell::new(0)),
    };
    let mut replica = Replica::new(store, Service::new("kv", "rt"));
    let (answer, started) = replica.change_role(Err(-11), ReplicaRole::Primary);
    assert_eq!(answer, Err(-11));
    assert!(started.is_none());
    assert!(!replica.svc().running());
    let (_, started) = replica.change_role(Ok(HSTRING::new()), ReplicaRole::Primary);
    assert_eq!(started.unwrap().id(), 0);
    let (answer, started) = replica.change_role(Err(-12), ReplicaRole::Primary);
    assert_eq!(answer, Err(-12));
    assert!(started.is_none());
    assert!(replica.svc().running());
}

#[test]
fn replica_abort_stops_the_loop_and_aborts_the_store() {
    let aborts = Rc::new(Cell::new(0));
    let store = Store {
        aborts: aborts.clone(),
    };
    let mut replica = Replica::new(store, Service::new("kv", "rt"));
    let (_, started) = replica.change_role(Ok(HSTRING::new()), ReplicaRole::Primary);
    let mut rx = started.unwrap().into_receiver();
    assert_eq!(replica.abort(), StopOutcome::Signalled);
    assert_eq!(rx.try_recv(), Ok(()));
    assert_eq!(aborts.get(), 1);
    assert_eq!(replica.abort(), StopOutcome::NotRunning);
    assert_eq!(aborts.get(), 2);
}

#[test]
fn listener_hears_the_stop_of_its_own_loop() {
    let mut svc = Service::new(1u8, 2u8);
    let (_, first) = svc.start_loop();
    let mut first = first.into_receiver();
    assert_eq!(svc.stop(), StopOutcome::Signalled);
    assert_eq!(first.try_recv(), Ok(()));
    let (_, second) = svc.start_loop();
    let (_, third) = svc.start_loop();
    let mut second = second.into_receiver();
    let mut third = third.into_receiver();
    assert_eq!(second.try_recv(), Ok(()));
    assert!(third.try_recv().is_err());
    assert_eq!(svc.stop(), StopOutcome::Signalled);
    assert_eq!(third.try_recv(), Ok(()));
}

#[test]
fn new_primary_stops_the_loop_that_ran() {
    let store = Store {
        aborts: Rc::new(Cell::new(0)),
    };
    let mut replica = Replica::new(store, Service::new("kv", "rt"));
    let (_, first) = replica.change_role(Ok(HSTRING::new()), ReplicaRole::Primary);
    let mut first = first.unwrap().into_receiver();
    let (_, second) = replica.change_role(Ok(HSTRING::new()), ReplicaRole::Primary);
    let second = second.unwrap();
    assert_eq!(second.id(), 1);
    let mut second = second.into_receiver();
    assert_eq!(first.try_recv(), Ok(()));
    assert!(second.try_recv().is_err());
    assert_eq!(replica.close(), StopOutcome::Signalled);
    assert_eq!(second.try_recv(), Ok(()));
}

#[test]
fn decimal_text_of_numbers() {
    assert_eq!(decimal_string(0), "0");
    assert_eq!(decimal_string(7), "7");
    assert_eq!(decimal_string(10), "10");
    assert_eq!(decimal_string(1234567890), "1234567890");
    assert_eq!(decimal_string(u32::MAX), "4294967295");
    assert_eq!(decimal_string(9009), 9009u32.to_string());
}

#[test]
fn names_of_the_sample() {
    assert_eq!(store_name(), "mystorename");
    assert_eq!(round_key(), "mykey");
    assert_eq!(round_value(), "myvalue");
}

#[test]
fn round_adds_then_removes_at_the_committed_sequence_number() {
    let mut round = RunSingle::new();
    assert_eq!(round.step, RoundStep::Start);
    assert_eq!(round.advance(Ok(0)), StoreAction::CreateTransaction);
    assert_eq!(round.advance(Ok(0)), StoreAction::Add);
    assert_eq!(round.advance(Ok(0)), StoreAction::Commit(1000));
    assert_eq!(round.advance(Ok(77)), StoreAction::CreateTransaction);
    assert_eq!(round.seq, 77);
    assert_eq!(round.advance(Ok(0)), StoreAction::Remove(77));
    assert_eq!(round.advance(Ok(0)), StoreAction::Commit(1000));
    assert_eq!(round.advance(Ok(78)), StoreAction::Succeeded);
    assert_eq!(round.step, RoundStep::Finished);
    assert_eq!(round.advance(Err(-1)), StoreAction::Succeeded);
    assert_eq!(COMMIT_TIMEOUT_MS, 1000);
}

#[test]
fn round_ends_on_the_first_failure() {
    let mut round = RunSingle::new();
    assert_eq!(round.advance(Err(-9)), StoreAction::CreateTransaction);
    assert_eq!(round.advance(Ok(0)), StoreAction::Add);
    assert_eq!(round.advance(Err(-5)), StoreAction::Failed(-5));
    assert_eq!(round.step, RoundStep::FailedWith(-5));
    assert_eq!(round.advance(Ok(1)), StoreAction::Failed(-5));
    assert_eq!(round.step, RoundStep::FailedWith(-5));
}

#[test]
fn factory_builds_a_replica_on_the_created_store() {
    let factory = Factory::create(4000, 5u8);
    let partition = GUID::from_u128(0x1234);
    let replica = factory
        .create_replica(&partition, 77, |request| {
            assert_eq!(request.store_name, HSTRING::from("mystorename"));
            assert_eq!(request.partitionid, GUID::from_u128(0x1234));
            assert_eq!(request.replicaid, 77);
            assert_eq!(request.local_store_kind, LocalStoreKind::Ese);
            assert_eq!(request.settings.flags, 4);
            assert_eq!(
                request.settings.replicator_address,
                HSTRING::from("localhost:4000")
            );
            Ok(("proxy", "store"))
        })
        .ok()
        .unwrap();
    assert_eq!(*replica.kv(), "proxy");
    assert_eq!(*replica.svc().kvproxy(), "store");
    assert_eq!(*replica.svc().rt(), 5u8);
    assert!(!replica.svc().running());
    let failed = factory.create_replica(&partition, 1, |_| Err::<(u8, u8), i32>(-3));
    assert_eq!(failed.err(), Some(-3));
    assert_eq!(factory.build_replica::<u8, u8>(Err(6)).err(), Some(6));
}
