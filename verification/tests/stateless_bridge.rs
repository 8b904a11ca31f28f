use mssf_core::error::BridgeError;
use mssf_core::runtime::lifecycle::LifecycleEvent as E;
use mssf_core::runtime::lifecycle::LifecycleState as S;
use mssf_core::runtime::lifecycle::LifecycleState;
use mssf_core::runtime::stateless::{StatelessServiceFactory, StatelessServiceInstance};
use mssf_core::runtime::stateless_bridge::{
    open_outcome, IFabricStatelessServiceInstanceBridge, StatelessServiceFactoryBridge,
};
use mssf_core::strings::StringResult;
use mssf_core::sync::bridge_context::BridgeContext;
use std::sync::atomic::{AtomicUsize, Ordering};
use std::sync::Arc;
use windows_core::{GUID, HSTRING};

struct Instance {
    aborts: Arc<AtomicUsize>,
    data_len: usize,
    name: String,
}

impl StatelessServiceInstance for Instance {
    fn abort(&self) {
        self.aborts.fetch_add(1, Ordering::SeqCst);
    }
}

struct Factory {
    aborts: Arc<AtomicUsize>,
    fail_with: Option<i32>,
}

impl StatelessServiceFactory for Factory {
    type Instance = Instance;

    fn create_instance(
        &self,
        servicetypename: &HSTRING,
        servicename: &HSTRING,
        initializationdata: &[u8],
        _partitionid: &GUID,
        instanceid: i64,
    ) -> Result<Instance, i32> {
        match self.fail_with {
            Some(code) => Err(code),
            None => Ok(Instance {
                aborts: self.aborts.clone(),
                data_len: initializationdata.len(),
                name: format!(
                    "{}/{}/{}",
                    servicetypename.to_string_lossy(),
                    servicename.to_string_lossy(),
                    instanceid
                ),
            }),
        }
    }
}

fn new_bridge() -> (
    IFabricStatelessServiceInstanceBridge<u8, Instance>,
    Arc<AtomicUsize>,
) {
    let aborts = Arc::new(AtomicUsize::new(0));
    let instance = Instance {
        aborts: aborts.clone(),
        data_len: 0,
        name: String::new(),
    };
    (IFabricStatelessServiceInstanceBridge::create(instance, 1u8), aborts)
}

#[test]
fn lifecycle_table() {
    assert_eq!(S::Created.step(E::BeginOpen), Some(S::Opening));
    assert_eq!(S::Opening.step(E::Opened), Some(S::Open));
    assert_eq!(S::Open.step(E::BeginClose), Some(S::Closing));
    assert_eq!(S::Closing.step(E::Closed), Some(S::Closed));
    assert_eq!(S::Aborting.step(E::AbortDone), Some(S::Aborted));
    for s in [S::Created, S::Opening, S::Open, S::Closing, S::Aborting] {
        assert!(!s.terminal());
        assert_eq!(s.step(E::Abort), Some(S::Aborting));
    }
    for s in [S::Closed, S::Aborted] {
        assert!(s.terminal());
        for e in [
            E::BeginOpen,
            E::Opened,
            E::BeginClose,
            E::Closed,
            E::Abort,
            E::AbortDone,
        ] {
            assert_eq!(s.step(e), None);
        }
    }
    assert_eq!(S::Created.step(E::BeginClose), None);
    assert_eq!(S::Created.step(E::Opened), None);
    assert_eq!(S::Open.step(E::BeginOpen), None);
    assert_eq!(S::Opening.step(E::Closed), None);
    assert_eq!(S::Open.step(E::AbortDone), None);
}

#[test]
fn open_then_close() {
    let (mut bridge, aborts) = new_bridge();
    assert_eq!(bridge.lifecycle(), LifecycleState::Created);
    assert_eq!(*bridge.rt(), 1u8);
    let mut open: BridgeContext<StringResult, u32> = bridge.begin_open(10).unwrap();
    assert_eq!(open.callback(), 10);
    assert_eq!(bridge.lifecycle(), LifecycleState::Opening);

    assert!(matches!(bridge.end_open(&mut open), Err(BridgeError::NotReady)));
    assert_eq!(bridge.lifecycle(), LifecycleState::Opening);

    let outcome = open_outcome(Ok(HSTRING::from("1.2.3.4:1234")));
    assert_eq!(open.complete(outcome).unwrap().callback, 10);
    let address = bridge.end_open(&mut open).unwrap();
    assert_eq!(address.get_string(), &HSTRING::from("1.2.3.4:1234")[..]);
    assert_eq!(bridge.lifecycle(), LifecycleState::Open);
    assert!(matches!(
        bridge.end_open(&mut open),
        Err(BridgeError::AlreadyClaimed)
    ));
    assert_eq!(bridge.lifecycle(), LifecycleState::Open);
    let mut early: BridgeContext<(), u32> = BridgeContext::make(1);
    assert_eq!(bridge.end_close(&mut early), Err(BridgeError::CallbackMisuse));

    let mut close: BridgeContext<(), u32> = bridge.begin_close(11).unwrap();
    assert_eq!(bridge.lifecycle(), LifecycleState::Closing);
    assert!(close.complete(Ok(())).is_ok());
    assert_eq!(bridge.end_close(&mut close), Ok(()));
    assert_eq!(bridge.lifecycle(), LifecycleState::Closed);
    assert_eq!(bridge.end_close(&mut close), Err(BridgeError::AlreadyClaimed));
    assert_eq!(bridge.lifecycle(), LifecycleState::Closed);
    assert!(matches!(
        bridge.end_open(&mut open),
        Err(BridgeError::AlreadyClaimed)
    ));

    assert!(!bridge.abort());
    assert_eq!(bridge.lifecycle(), LifecycleState::Closed);
    assert_eq!(aborts.load(Ordering::SeqCst), 1);
}

#[test]
fn calls_out_of_order_are_rejected() {
    let (mut bridge, _aborts) = new_bridge();
    assert!(matches!(
        bridge.begin_close::<u32>(1),
        Err(BridgeError::CallbackMisuse)
    ));
    let mut stray: BridgeContext<StringResult, u32> = BridgeContext::make(1);
    assert!(stray.complete(open_outcome(Ok(HSTRING::from("a")))).is_ok());
    assert!(matches!(
        bridge.end_open(&mut stray),
        Err(BridgeError::CallbackMisuse)
    ));
    assert!(stray.is_completed());
    assert_eq!(bridge.lifecycle(), LifecycleState::Created);
    assert!(bridge.begin_open::<u32>(2).is_ok());
    assert!(matches!(
        bridge.begin_open::<u32>(3),
        Err(BridgeError::CallbackMisuse)
    ));
    assert_eq!(bridge.lifecycle(), LifecycleState::Opening);
}

#[test]
fn failed_open_stays_opening() {
    let (mut bridge, _aborts) = new_bridge();
    let mut open: BridgeContext<StringResult, u32> = bridge.begin_open(10).unwrap();
    assert!(open.complete(open_outcome(Err(-3))).is_ok());
    assert!(matches!(
        bridge.end_open(&mut open),
        Err(BridgeError::OperationFailed(-3))
    ));
    assert_eq!(bridge.lifecycle(), LifecycleState::Opening);
    assert!(matches!(
        bridge.end_open(&mut open),
        Err(BridgeError::AlreadyClaimed)
    ));
}

#[test]
fn abort_during_open() {
    let (mut bridge, aborts) = new_bridge();
    let mut open: BridgeContext<StringResult, u32> = bridge.begin_open(10).unwrap();
    assert!(bridge.abort());
    assert_eq!(bridge.lifecycle(), LifecycleState::Aborted);
    assert_eq!(aborts.load(Ordering::SeqCst), 1);
    assert!(!bridge.abort());
    assert_eq!(aborts.load(Ordering::SeqCst), 2);
    assert!(matches!(
        bridge.end_open(&mut open),
        Err(BridgeError::NotReady)
    ));
    assert!(open.cancel().is_empty());
    assert!(matches!(
        bridge.end_open(&mut open),
        Err(BridgeError::Cancelled)
    ));
    assert!(open.complete(open_outcome(Err(-2147467260))).is_ok());
    assert!(matches!(
        bridge.end_open(&mut open),
        Err(BridgeError::OperationFailed(-2147467260))
    ));
    assert!(matches!(
        bridge.end_open(&mut open),
        Err(BridgeError::AlreadyClaimed)
    ));
    assert_eq!(bridge.lifecycle(), LifecycleState::Aborted);
    assert!(matches!(
        bridge.begin_close::<u32>(1),
        Err(BridgeError::CallbackMisuse)
    ));
}

#[test]
fn open_that_succeeds_after_abort_is_handed_out_but_opens_nothing() {
    let (mut bridge, _aborts) = new_bridge();
    let mut open: BridgeContext<StringResult, u32> = bridge.begin_open(10).unwrap();
    assert!(bridge.abort());
    assert!(open.complete(open_outcome(Ok(HSTRING::from("a:1")))).is_ok());
    let address = bridge.end_open(&mut open).unwrap();
    assert_eq!(address.get_string().len(), 3);
    assert_eq!(bridge.lifecycle(), LifecycleState::Aborted);
}

#[test]
fn end_on_a_bridge_that_began_nothing_is_rejected() {
    let (mut bridge, _aborts) = new_bridge();
    assert!(bridge.abort());
    let mut open: BridgeContext<StringResult, u32> = BridgeContext::make(1);
    assert!(open.complete(open_outcome(Ok(HSTRING::from("a")))).is_ok());
    assert!(matches!(
        bridge.end_open(&mut open),
        Err(BridgeError::CallbackMisuse)
    ));
    assert!(open.is_completed());
    let mut close: BridgeContext<(), u32> = BridgeContext::make(2);
    assert_eq!(bridge.end_close(&mut close), Err(BridgeError::CallbackMisuse));
}

#[test]
fn abort_in_two_halves() {
    let (mut bridge, aborts) = new_bridge();
    assert!(bridge.begin_open::<u32>(1).is_ok());
    assert!(bridge.begin_abort());
    assert_eq!(bridge.lifecycle(), LifecycleState::Aborting);
    bridge.inner().abort();
    assert!(bridge.begin_abort());
    assert_eq!(bridge.lifecycle(), LifecycleState::Aborting);
    bridge.finish_abort();
    assert_eq!(bridge.lifecycle(), LifecycleState::Aborted);
    bridge.finish_abort();
    assert_eq!(bridge.lifecycle(), LifecycleState::Aborted);
    assert!(!bridge.begin_abort());
    assert_eq!(bridge.lifecycle(), LifecycleState::Aborted);
    assert_eq!(aborts.load(Ordering::SeqCst), 1);

    let (mut fresh, _) = new_bridge();
    fresh.finish_abort();
    assert_eq!(fresh.lifecycle(), LifecycleState::Created);
}

#[test]
fn factory_bridge_creates_instances() {
    let aborts = Arc::new(AtomicUsize::new(0));
    let factory = Factory {
        aborts: aborts.clone(),
        fail_with: None,
    };
    let bridge = StatelessServiceFactoryBridge::create(factory, 9u8);
    assert_eq!(*bridge.rt(), 9u8);
    let service_type: Vec<u16> = "EchoType\0junk".encode_utf16().collect();
    let name: Vec<u16> = "fabric:/echo\0".encode_utf16().collect();
    let instance = bridge
        .create_instance(
            Some(&service_type),
            Some(&name),
            None,
            &GUID::from_u128(7),
            12,
        )
        .ok()
        .unwrap();
    assert_eq!(instance.lifecycle(), LifecycleState::Created);
    assert_eq!(*instance.rt(), 9u8);
    assert_eq!(instance.inner().name, "EchoType/fabric:/echo/12");
    assert_eq!(instance.inner().data_len, 0);
    let with_data = bridge
        .create_instance(None, None, Some(&[1, 2, 3]), &GUID::from_u128(7), 1)
        .ok()
        .unwrap();
    assert_eq!(with_data.inner().data_len, 3);
    assert_eq!(with_data.inner().name, "//1");
}

#[test]
fn factory_failure_is_passed_on() {
    let factory = Factory {
        aborts: Arc::new(AtomicUsize::new(0)),
        fail_with: Some(-77),
    };
    let bridge = StatelessServiceFactoryBridge::create(factory, 0u8);
    let r = bridge.create_instance(None, None, None, &GUID::from_u128(1), 1);
    assert_eq!(r.err(), Some(-77));
    let wrapped = StatelessServiceFactoryBridge::<u8, Factory>::wrap_instance(Err(5), 0u8);
    assert_eq!(wrapped.err(), Some(5));
}

#[test]
fn created_instance_has_begun_nothing() {
    let factory = Factory {
        aborts: Arc::new(AtomicUsize::new(0)),
        fail_with: None,
    };
    let bridge = StatelessServiceFactoryBridge::create(factory, 0u8);
    let mut instance = bridge
        .create_instance(None, None, None, &GUID::from_u128(1), 1)
        .ok()
        .unwrap();
    let mut open: BridgeContext<StringResult, u32> = BridgeContext::make(1);
    assert!(matches!(
        instance.end_open(&mut open),
        Err(BridgeError::CallbackMisuse)
    ));
    let mut close: BridgeContext<(), u32> = BridgeContext::make(2);
    assert_eq!(instance.end_close(&mut close), Err(BridgeError::CallbackMisuse));
    assert_eq!(instance.lifecycle(), LifecycleState::Created);
}

#[test]
fn open_outcome_keeps_failure_codes() {
    assert_eq!(open_outcome(Err(-9)).err(), Some(-9));
    let ok = open_outcome(Ok(HSTRING::from("addr"))).ok().unwrap();
    assert_eq!(ok.get_string().len(), 4);
}
