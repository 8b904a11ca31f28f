//! Bridge from the foreign runtime to a stateless service.

#![allow(non_camel_case_types)]

use std::sync::Arc;
use vstd::prelude::*;
use windows_core::GUID;
use crate::error::BridgeError;
use crate::runtime::lifecycle::{LifecycleEvent, LifecycleState};
use crate::runtime::stateless::{StatelessServiceFactory, StatelessServiceInstance};
use crate::strings::{hstring_units, raw_units, safe_pwstr_to_hstring, HSTRINGWrap, StringResult};
use crate::sync::bridge_context::{BridgeContext, ContextState};
use windows_core::HSTRING;

verus! {

/// Factory of the foreign runtime that creates instance bridges.
pub struct StatelessServiceFactoryBridge<E, F> where F: StatelessServiceFactory {
    inner: F,
    rt: E,
}

/// Instance of the foreign runtime that drives a stateless service instance.
pub struct IFabricStatelessServiceInstanceBridge<E, S> where S: StatelessServiceInstance {
    inner: Arc<S>,
    rt: E,
    state: LifecycleState,
    open_begun: bool,
    close_begun: bool,
}

/// The outcome of an open as the End call hands it out: the address becomes
/// a string result, a failure code stays as it is.
pub fn open_outcome(opened: Result<HSTRING, i32>) -> (outcome: Result<StringResult, i32>)
    ensures
        match opened {
            Ok(address) => outcome matches Ok(result) && result.units() == hstring_units(address),
            Err(code) => outcome == Err::<StringResult, i32>(code),
        },
{
    match opened {
        Ok(address) => Ok(HSTRINGWrap::from_hstring(address).into_string_result()),
        Err(code) => Err(code),
    }
}

impl<E, F> StatelessServiceFactoryBridge<E, F> where F: StatelessServiceFactory {
    /// The service's factory.
    pub closed spec fn factory(&self) -> F {
        self.inner
    }

    /// The executor that runs the operations.
    pub closed spec fn executor(&self) -> E {
        self.rt
    }

    /// A bridge to `factory` whose instances run their operations on `rt`.
    pub fn create(factory: F, rt: E) -> (bridge: StatelessServiceFactoryBridge<E, F>)
        ensures
            bridge.factory() == factory,
            bridge.executor() == rt,
    {
        StatelessServiceFactoryBridge { inner: factory, rt }
    }

    /// The executor that runs the operations.
    pub fn rt(&self) -> (rt: &E)
        ensures
            *rt == self.executor(),
    {
        &self.rt
    }

    /// Wraps what the service's factory returned: an instance becomes a
    /// bridge in the `Created` state on `rt`, on which no operation was
    /// begun; a failure code is passed on.
    pub fn wrap_instance(created: Result<F::Instance, i32>, rt: E) -> (r: Result<
        IFabricStatelessServiceInstanceBridge<E, F::Instance>,
        i32,
    >)
        ensures
            match created {
                Ok(instance) => r matches Ok(bridge) && bridge.instance() == instance
                    && bridge.executor() == rt && bridge.state() == LifecycleState::Created
                    && !bridge.open_begun() && !bridge.close_begun(),
                Err(code) => r matches Err(e) && e == code,
            },
    {
        match created {
            Ok(instance) => Ok(IFabricStatelessServiceInstanceBridge::create(instance, rt)),
            Err(code) => Err(code),
        }
    }

    /// Creates an instance of the service and its bridge. The names are raw
    /// wide strings; absent initialization data counts as empty. The result
    /// is the answer of the service's factory to this request: its instance
    /// behind a bridge in the `Created` state, or its failure code.
    pub fn create_instance(
        &self,
        servicetypename: Option<&[u16]>,
        servicename: Option<&[u16]>,
        initializationdata: Option<&[u8]>,
        partitionid: &GUID,
        instanceid: i64,
    ) -> (r: Result<IFabricStatelessServiceInstanceBridge<E, F::Instance>, i32>) where E: Clone
        requires
            servicetypename matches Some(buffer) ==> buffer@.len() <= u32::MAX,
            servicename matches Some(buffer) ==> buffer@.len() <= u32::MAX,
        ensures
            exists|created: Result<F::Instance, i32>| #[trigger]
                self.factory_answered(
                    servicetypename,
                    servicename,
                    initializationdata,
                    partitionid,
                    instanceid,
                    created,
                ) && self.instance_wrapped(created, r),
            r matches Ok(bridge) ==> bridge.state() == LifecycleState::Created,
    {
        let h_servicename = safe_pwstr_to_hstring(servicename);
        let h_servicetypename = safe_pwstr_to_hstring(servicetypename);
        let empty: Vec<u8> = Vec::new();
        let data: &[u8] = match initializationdata {
            Some(data) => data,
            None => empty.as_slice(),
        };
        let created = self.inner.create_instance(
            &h_servicetypename,
            &h_servicename,
            data,
            partitionid,
            instanceid,
        );
        let rt = self.rt.clone();
        let r = Self::wrap_instance(created, rt);
        proof {
            assert(call_ensures(
                F::create_instance,
                (&self.factory(), &h_servicetypename, &h_servicename, data, partitionid, instanceid),
                created,
            ));
            assert(self.factory_answered(
                servicetypename,
                servicename,
                initializationdata,
                partitionid,
                instanceid,
                created,
            ));
            assert(self.instance_wrapped(created, r));
        }
        r
    }

    /// Whether `created` is an answer of the service's factory to a creation
    /// request: the factory is handed both names as strings of the units
    /// before the terminator, the initialization data or none where it is
    /// absent, and the two ids as they came.
    pub open spec fn factory_answered(
        &self,
        servicetypename: Option<&[u16]>,
        servicename: Option<&[u16]>,
        initializationdata: Option<&[u8]>,
        partitionid: &GUID,
        instanceid: i64,
        created: Result<F::Instance, i32>,
    ) -> bool {
        exists|kind_name: HSTRING, name: HSTRING, data: &[u8]|
            {
                &&& hstring_units(kind_name) == raw_units(
                    match servicetypename {
                        Some(buffer) => Some(buffer@),
                        None => None,
                    },
                )
                &&& hstring_units(name) == raw_units(
                    match servicename {
                        Some(buffer) => Some(buffer@),
                        None => None,
                    },
                )
                &&& data@ == (match initializationdata {
                    Some(given) => given@,
                    None => Seq::<u8>::empty(),
                })
                &&& #[trigger] call_ensures(
                    F::create_instance,
                    (&self.factory(), &kind_name, &name, data, partitionid, instanceid),
                    created,
                )
            }
    }

    /// Whether `r` is the factory's answer `created` behind a bridge: an
    /// instance stands behind a bridge in the `Created` state that runs on a
    /// clone of this bridge's executor and on which no operation was begun, a
    /// failure code is passed on.
    pub open spec fn instance_wrapped(
        &self,
        created: Result<F::Instance, i32>,
        r: Result<IFabricStatelessServiceInstanceBridge<E, F::Instance>, i32>,
    ) -> bool where E: Clone {
        match created {
            Ok(instance) => r matches Ok(bridge) && bridge.instance() == instance
                && bridge.state() == LifecycleState::Created && !bridge.open_begun()
                && !bridge.close_begun() && call_ensures(
                E::clone,
                (&self.executor(),),
                bridge.executor(),
            ),
            Err(code) => r matches Err(e) && e == code,
        }
    }
}

impl<E, S> IFabricStatelessServiceInstanceBridge<E, S> where S: StatelessServiceInstance {
    /// The service instance.
    pub closed spec fn instance(&self) -> S {
        *self.inner
    }

    /// The executor that runs the operations.
    pub closed spec fn executor(&self) -> E {
        self.rt
    }

    /// Where the instance stands in its life.
    pub closed spec fn state(&self) -> LifecycleState {
        self.state
    }

    /// Whether an open operation was begun on this bridge.
    pub closed spec fn open_begun(&self) -> bool {
        self.open_begun
    }

    /// Whether a close operation was begun on this bridge.
    pub closed spec fn close_begun(&self) -> bool {
        self.close_begun
    }

    /// Whether `after` differs from this bridge in nothing but the lifecycle
    /// state.
    pub open spec fn differs_in_state_only(&self, after: Self) -> bool {
        &&& after.instance() == self.instance()
        &&& after.executor() == self.executor()
        &&& after.open_begun() == self.open_begun()
        &&& after.close_begun() == self.close_begun()
    }

    /// A bridge to `instance` in the `Created` state, on which no operation
    /// was begun.
    pub fn create(instance: S, rt: E) -> (bridge: IFabricStatelessServiceInstanceBridge<E, S>)
        ensures
            bridge.instance() == instance,
            bridge.executor() == rt,
            bridge.state() == LifecycleState::Created,
            !bridge.open_begun(),
            !bridge.close_begun(),
    {
        IFabricStatelessServiceInstanceBridge {
            inner: Arc::new(instance),
            rt,
            state: LifecycleState::Created,
            open_begun: false,
            close_begun: false,
        }
    }

    /// The service instance, to be shared with the task of an operation.
    pub fn inner(&self) -> (inner: &Arc<S>)
        ensures
            **inner == self.instance(),
    {
        &self.inner
    }

    /// The executor that runs the operations.
    pub fn rt(&self) -> (rt: &E)
        ensures
            *rt == self.executor(),
    {
        &self.rt
    }

    /// Where the instance stands in its life.
    pub fn lifecycle(&self) -> (state: LifecycleState)
        ensures
            state == self.state(),
    {
        self.state
    }

    /// Takes `event` if the lifecycle allows it here; otherwise rejects it
    /// with `CallbackMisuse` and stays.
    fn advance(&mut self, event: LifecycleEvent) -> (r: Result<(), BridgeError>)
        ensures
            old(self).differs_in_state_only(*final(self)),
            match old(self).state().next(event) {
                Some(next) => r is Ok && final(self).state() == next,
                None => r == Err::<(), BridgeError>(BridgeError::CallbackMisuse) && final(self).state()
                    == old(self).state(),
            },
    {
        match self.state.step(event) {
            Some(next) => {
                self.state = next;
                Ok(())
            },
            None => Err(BridgeError::CallbackMisuse),
        }
    }

    /// Begins the open operation: a created instance moves to `Opening` and
    /// the context of the operation comes back, with `callback` as the sink
    /// to notify. In any other state the call is rejected with
    /// `CallbackMisuse` and nothing changes.
    pub fn begin_open<W>(&mut self, callback: u64) -> (r: Result<
        BridgeContext<StringResult, W>,
        BridgeError,
    >)
        ensures
            final(self).instance() == old(self).instance(),
            final(self).executor() == old(self).executor(),
            final(self).close_begun() == old(self).close_begun(),
            match old(self).state().next(LifecycleEvent::BeginOpen) {
                Some(next) => final(self).state() == next && final(self).open_begun() && (
                r matches Ok(ctx) && ctx@ == ContextState::<StringResult, W>::fresh(callback)),
                None => *final(self) == *old(self) && (r matches Err(e) && e
                    == BridgeError::CallbackMisuse),
            },
    {
        match self.advance(LifecycleEvent::BeginOpen) {
            Ok(()) => {
                self.open_begun = true;
                Ok(BridgeContext::make(callback))
            },
            Err(e) => Err(e),
        }
    }

    /// The state after an End call of the open operation reported `claimed`:
    /// a claim that succeeds moves an opening instance to `Open`.
    pub open spec fn after_end_open<T>(
        state: LifecycleState,
        claimed: Result<T, BridgeError>,
    ) -> LifecycleState {
        if state == LifecycleState::Opening && claimed is Ok {
            LifecycleState::Open
        } else {
            state
        }
    }

    /// The state after an End call of the close operation reported `claimed`:
    /// a claim that succeeds moves a closing instance to `Closed`.
    pub open spec fn after_end_close<T>(
        state: LifecycleState,
        claimed: Result<T, BridgeError>,
    ) -> LifecycleState {
        if state == LifecycleState::Closing && claimed is Ok {
            LifecycleState::Closed
        } else {
            state
        }
    }

    /// Ends the open operation: claims the address from `context`. Once an
    /// open was begun, the call is the claim of the context in every state,
    /// also after the address was handed out and after an abort: the first
    /// claim of a stored outcome returns it, a later one gives
    /// `AlreadyClaimed`. The claim that succeeds moves an opening instance to
    /// `Open`. On a bridge on which no open was begun the call is rejected
    /// with `CallbackMisuse` and nothing changes.
    pub fn end_open<W>(&mut self, context: &mut BridgeContext<StringResult, W>) -> (r: Result<
        StringResult,
        BridgeError,
    >)
        ensures
            old(self).differs_in_state_only(*final(self)),
            old(self).open_begun() ==> r == old(context)@.claimed() && final(context)@ == old(
                context,
            )@.claim() && final(self).state() == Self::after_end_open(old(self).state(), r),
            !old(self).open_begun() ==> (r matches Err(e) && e == BridgeError::CallbackMisuse)
                && final(context)@ == old(context)@ && final(self).state() == old(self).state(),
    {
        if !self.open_begun {
            return Err(BridgeError::CallbackMisuse);
        }
        let r = context.result();
        if r.is_ok() {
            match self.state {
                LifecycleState::Opening => {
                    self.state = LifecycleState::Open;
                },
                _ => {},
            }
        }
        r
    }

    /// Begins the close operation: an open instance moves to `Closing` and
    /// the context of the operation comes back. In any other state the call
    /// is rejected with `CallbackMisuse` and nothing changes.
    pub fn begin_close<W>(&mut self, callback: u64) -> (r: Result<BridgeContext<(), W>, BridgeError>)
        ensures
            final(self).instance() == old(self).instance(),
            final(self).executor() == old(self).executor(),
            final(self).open_begun() == old(self).open_begun(),
            match old(self).state().next(LifecycleEvent::BeginClose) {
                Some(next) => final(self).state() == next && final(self).close_begun() && (
                r matches Ok(ctx) && ctx@ == ContextState::<(), W>::fresh(callback)),
                None => *final(self) == *old(self) && (r matches Err(e) && e
                    == BridgeError::CallbackMisuse),
            },
    {
        match self.advance(LifecycleEvent::BeginClose) {
            Ok(()) => {
                self.close_begun = true;
                Ok(BridgeContext::make(callback))
            },
            Err(e) => Err(e),
        }
    }

    /// Ends the close operation: claims its outcome from `context`. Once a
    /// close was begun, the call is the claim of the context in every state,
    /// also after the outcome was handed out and after an abort. The claim
    /// that succeeds moves a closing instance to `Closed`. On a bridge on
    /// which no close was begun the call is rejected with `CallbackMisuse`
    /// and nothing changes.
    pub fn end_close<W>(&mut self, context: &mut BridgeContext<(), W>) -> (r: Result<
        (),
        BridgeError,
    >)
        ensures
            old(self).differs_in_state_only(*final(self)),
            old(self).close_begun() ==> r == old(context)@.claimed() && final(context)@ == old(
                context,
            )@.claim() && final(self).state() == Self::after_end_close(old(self).state(), r),
            !old(self).close_begun() ==> (r matches Err(e) && e == BridgeError::CallbackMisuse)
                && final(context)@ == old(context)@ && final(self).state() == old(self).state(),
    {
        if !self.close_begun {
            return Err(BridgeError::CallbackMisuse);
        }
        let r = context.result();
        if r.is_ok() {
            match self.state {
                LifecycleState::Closing => {
                    self.state = LifecycleState::Closed;
                },
                _ => {},
            }
        }
        r
    }

    /// The state after an abort: `Aborted`, unless the instance was closed
    /// or aborted before.
    pub open spec fn after_abort(state: LifecycleState) -> LifecycleState {
        if state.is_terminal() {
            state
        } else {
            LifecycleState::Aborted
        }
    }

    /// First half of an abort for a host that shares the bridge: an instance
    /// that was not closed or aborted moves to `Aborting`. The result tells
    /// whether it did. The host then lets the bridge go, calls the service
    /// instance's `abort` in any case, and calls `finish_abort`.
    pub fn begin_abort(&mut self) -> (entered: bool)
        ensures
            old(self).differs_in_state_only(*final(self)),
            entered == !old(self).state().is_terminal(),
            final(self).state() == (if entered {
                LifecycleState::Aborting
            } else {
                old(self).state()
            }),
    {
        self.advance(LifecycleEvent::Abort).is_ok()
    }

    /// Second half of an abort: the service instance has returned from its
    /// `abort`, and an aborting instance moves to `Aborted`. In any other
    /// state nothing changes.
    pub fn finish_abort(&mut self)
        ensures
            old(self).differs_in_state_only(*final(self)),
            final(self).state() == (if old(self).state() == LifecycleState::Aborting {
                LifecycleState::Aborted
            } else {
                old(self).state()
            }),
    {
        let _ = self.advance(LifecycleEvent::AbortDone);
    }

    /// Aborts the instance in one call, for a caller that owns the bridge.
    /// The service instance's `abort` is called once, whatever the state,
    /// also while an open or a close is in flight; no context is claimed or
    /// completed. An instance that was not closed or aborted passes through
    /// `Aborting` and ends as `Aborted`. The result tells whether the state
    /// changed.
    pub fn abort(&mut self) -> (changed: bool)
        ensures
            old(self).differs_in_state_only(*final(self)),
            call_ensures(S::abort, (&old(self).instance(),), ()),
            final(self).state() == Self::after_abort(old(self).state()),
            changed == !old(self).state().is_terminal(),
    {
        let entered = self.begin_abort();
        self.inner.abort();
        self.finish_abort();
        entered
    }
}

/// The second End call of an open never hands the address out again: after
/// a claim that succeeded, the claim of the same context gives
/// `AlreadyClaimed`, whatever state the instance is in by then.
pub proof fn lemma_second_end_is_already_claimed<T, W>(c: ContextState<T, W>)
    requires
        c.claimed() is Ok,
    ensures
        c.claim().claimed() == Err::<T, BridgeError>(BridgeError::AlreadyClaimed),
        c.claim().claim() == c.claim(),
{
}

} // verus!
