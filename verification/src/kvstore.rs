//! Key-value store sample: a replica whose primary runs a background loop
//! against the store.

use vstd::prelude::*;
use vstd::string::StringExecFns;
use windows_core::{GUID, HSTRING};
use tokio::sync::oneshot::{Receiver, Sender};
use crate::runtime::lifecycle::ReplicaRole;
use crate::strings::{
    hstring_from_str, hstring_to_string_lossy, hstring_units, lemma_utf16_units_len,
    utf16_lossy_text, utf16_units,
};

verus! {

#[verifier::external_type_specification]
#[verifier::external_body]
#[verifier::reject_recursive_types(T)]
pub struct ExSender<T>(tokio::sync::oneshot::Sender<T>);

#[verifier::external_type_specification]
#[verifier::external_body]
#[verifier::reject_recursive_types(T)]
pub struct ExReceiver<T>(tokio::sync::oneshot::Receiver<T>);

// The receiving end resolves to this error when its sender is gone, so the
// receiving end cannot be declared without it.
#[verifier::external_type_specification]
#[verifier::external_body]
pub struct ExRecvError(tokio::sync::oneshot::error::RecvError);

/// `tokio::sync::oneshot::channel` makes the two ends of a new channel.
#[verifier::external_body]
fn stop_channel() -> (ends: (Sender<()>, Receiver<()>)) {
    tokio::sync::oneshot::channel::<()>()
}

/// `Sender::send` offers the stop signal to the other end and tells whether
/// that end was still there to take it.
#[verifier::external_body]
fn send_stop(tx: Sender<()>) -> (delivered: bool) {
    tx.send(()).is_ok()
}

/// The character of one decimal digit.
pub open spec fn digit_char(d: nat) -> char {
    if d == 0 {
        '0'
    } else if d == 1 {
        '1'
    } else if d == 2 {
        '2'
    } else if d == 3 {
        '3'
    } else if d == 4 {
        '4'
    } else if d == 5 {
        '5'
    } else if d == 6 {
        '6'
    } else if d == 7 {
        '7'
    } else if d == 8 {
        '8'
    } else {
        '9'
    }
}

/// The decimal digits of a number, without leading zeros.
pub open spec fn decimal_digits(n: nat) -> Seq<char>
    decreases n,
{
    if n < 10 {
        seq![digit_char(n)]
    } else {
        decimal_digits(n / 10).push(digit_char(n % 10))
    }
}

/// The text of one decimal digit.
fn digit_text(d: u32) -> (text: &'static str)
    requires
        d < 10,
    ensures
        text@ == seq![digit_char(d as nat)],
{
    proof {
        reveal_strlit("0");
        reveal_strlit("1");
        reveal_strlit("2");
        reveal_strlit("3");
        reveal_strlit("4");
        reveal_strlit("5");
        reveal_strlit("6");
        reveal_strlit("7");
        reveal_strlit("8");
        reveal_strlit("9");
    }
    let text = if d == 0 {
        "0"
    } else if d == 1 {
        "1"
    } else if d == 2 {
        "2"
    } else if d == 3 {
        "3"
    } else if d == 4 {
        "4"
    } else if d == 5 {
        "5"
    } else if d == 6 {
        "6"
    } else if d == 7 {
        "7"
    } else if d == 8 {
        "8"
    } else {
        "9"
    };
    assert(text@ =~= seq![digit_char(d as nat)]);
    text
}

/// The number in decimal digits, without leading zeros.
pub fn decimal_string(n: u32) -> (text: String)
    ensures
        text@ == decimal_digits(n as nat),
    decreases n,
{
    if n < 10 {
        String::from_str(digit_text(n))
    } else {
        let mut text = decimal_string(n / 10);
        text.append(digit_text(n % 10));
        assert(text@ =~= decimal_digits(n as nat));
        text
    }
}

/// The power of ten.
pub open spec fn pow10(k: nat) -> nat
    decreases k,
{
    if k == 0 {
        1
    } else {
        10 * pow10((k - 1) as nat)
    }
}

/// A number below the `k`-th power of ten has at most `k` digits.
pub proof fn lemma_decimal_digits_len(n: nat, k: nat)
    requires
        k >= 1,
        n < pow10(k),
    ensures
        1 <= decimal_digits(n).len() <= k,
    decreases k,
{
    if n < 10 {
    } else {
        assert(pow10(1) == 10) by {
            assert(pow10(0) == 1);
        }
        assert(k >= 2);
        assert(n / 10 < pow10((k - 1) as nat));
        lemma_decimal_digits_len(n / 10, (k - 1) as nat);
    }
}

/// A port number has at most ten digits.
pub proof fn lemma_port_digits_len(port: u32)
    ensures
        1 <= decimal_digits(port as nat).len() <= 10,
{
    assert(pow10(10) == 10_000_000_000nat) by {
        reveal_with_fuel(pow10, 11);
    }
    lemma_decimal_digits_len(port as nat, 10);
}

/// The address of an endpoint: the host name, a colon and the port.
pub open spec fn addr_text(port: u32, hostname: Seq<u16>) -> Seq<char> {
    utf16_lossy_text(hostname) + seq![':'] + decimal_digits(port as nat)
}

/// The address `hostname:port`.
pub fn get_addr(port: u32, hostname: &HSTRING) -> (addr: String)
    ensures
        addr@ == addr_text(port, hstring_units(*hostname)),
        addr@.len() <= hstring_units(*hostname).len() + 11,
{
    let mut addr = String::new();
    let host = hstring_to_string_lossy(hostname);
    addr.append(host.as_str());
    proof {
        reveal_strlit(":");
    }
    addr.append(":");
    let digits = decimal_string(port);
    addr.append(digits.as_str());
    proof {
        lemma_port_digits_len(port);
        assert(":"@ =~= seq![':']);
        assert(addr@ =~= addr_text(port, hstring_units(*hostname)));
    }
    addr
}

/// Flag of the replicator settings that says that the address is set.
pub const FABRIC_REPLICATOR_ADDRESS: u32 = 0x4;

/// The name of the sample's store.
pub fn store_name() -> (name: &'static str)
    ensures
        name@ == "mystorename"@,
{
    "mystorename"
}

/// The key that a round of the loop writes and removes.
pub fn round_key() -> (key: &'static str)
    ensures
        key@ == "mykey"@,
{
    "mykey"
}

/// The value that a round of the loop writes.
pub fn round_value() -> (value: &'static str)
    ensures
        value@ == "myvalue"@,
{
    "myvalue"
}

/// Settings of the store's replicator, as far as the sample sets them.
#[derive(Debug)]
pub struct ReplicatorSettings {
    pub flags: u32,
    pub replicator_address: HSTRING,
}

/// The engine that keeps a store on disk.
#[derive(Debug, Clone, Copy, PartialEq, Eq, Structural)]
pub enum LocalStoreKind {
    Ese,
}

/// What the creation of a store is asked for.
#[derive(Debug)]
pub struct StoreRequest {
    pub store_name: HSTRING,
    pub partitionid: GUID,
    pub replicaid: i64,
    pub settings: ReplicatorSettings,
    pub local_store_kind: LocalStoreKind,
}

/// Creates the replicas of the sample service.
pub struct Factory<E> {
    replication_port: u32,
    rt: E,
}

impl<E> Factory<E> {
    /// The port on which the replicator listens.
    pub closed spec fn port(&self) -> u32 {
        self.replication_port
    }

    /// The executor of the service.
    pub closed spec fn executor(&self) -> E {
        self.rt
    }

    /// A factory whose replicas replicate on `replication_port`.
    pub fn create(replication_port: u32, rt: E) -> (factory: Factory<E>)
        ensures
            factory.port() == replication_port,
            factory.executor() == rt,
    {
        Factory { replication_port, rt }
    }

    /// The executor of the service.
    pub fn rt(&self) -> (rt: &E)
        ensures
            *rt == self.executor(),
    {
        &self.rt
    }

    /// The replicator settings of a new replica: only the address is set, to
    /// the factory's port on the local host.
    pub fn replicator_settings(&self) -> (settings: ReplicatorSettings)
        ensures
            settings.flags == FABRIC_REPLICATOR_ADDRESS,
            hstring_units(settings.replicator_address) == utf16_units(
                addr_text(self.port(), utf16_units("localhost"@)),
            ),
    {
        proof {
            reveal_strlit("localhost");
        }
        let hostname = hstring_from_str("localhost");
        proof {
            lemma_utf16_units_len("localhost"@);
        }
        let addr = get_addr(self.replication_port, &hostname);
        ReplicatorSettings {
            flags: FABRIC_REPLICATOR_ADDRESS,
            replicator_address: hstring_from_str(addr.as_str()),
        }
    }
}

impl<E: Clone> Factory<E> {
    /// Builds what the store's creation returned into a replica whose service
    /// has no loop yet and runs on a clone of the factory's executor.
    pub fn build_replica<P, K>(&self, created: Result<(P, K), i32>) -> (r: Result<
        Replica<P, K, E>,
        i32,
    >)
        ensures
            match created {
                Ok((proxy, store)) => r matches Ok(replica) && replica.proxy() == proxy
                    && replica.service().store() == store && !replica.service().is_running()
                    && call_ensures(E::clone, (&self.executor(),), replica.service().executor()),
                Err(code) => r matches Err(e) && e == code,
            },
    {
        match created {
            Ok((proxy, store)) => {
                let svc = Service::new(store, self.rt.clone());
                Ok(Replica::new(proxy, svc))
            },
            Err(code) => Err(code),
        }
    }

    /// Creates a replica of the partition `partitionid` with the id
    /// `replicaid`: `create_store` gets the request for the sample's store and
    /// creates the store and its replica. The result is the replica on what it
    /// returned, with no loop yet, or the failure code it returned.
    pub fn create_replica<P, K, C>(&self, partitionid: &GUID, replicaid: i64, create_store: C) -> (r:
        Result<Replica<P, K, E>, i32>) where C: FnOnce(StoreRequest) -> Result<(P, K), i32>
        requires
            forall|request: StoreRequest| call_requires(create_store, (request,)),
        ensures
            exists|request: StoreRequest, created: Result<(P, K), i32>| #[trigger]
                call_ensures(create_store, (request,), created) && self.request_matches(
                    request,
                    *partitionid,
                    replicaid,
                ) && self.built(created, r),
            r matches Ok(replica) ==> !replica.service().is_running(),
    {
        proof {
            reveal_strlit("mystorename");
        }
        let request = StoreRequest {
            store_name: hstring_from_str(store_name()),
            partitionid: *partitionid,
            replicaid,
            settings: self.replicator_settings(),
            local_store_kind: LocalStoreKind::Ese,
        };
        let ghost handed = request;
        let created = create_store(request);
        let r = self.build_replica(created);
        proof {
            assert(call_ensures(create_store, (handed,), created));
            assert(self.request_matches(handed, *partitionid, replicaid));
            assert(self.built(created, r));
        }
        r
    }

    /// Whether `request` asks for the sample's store for the given partition
    /// and replica, kept by the `Ese` engine, with the replicator settings of
    /// this factory.
    pub open spec fn request_matches(
        &self,
        request: StoreRequest,
        partitionid: GUID,
        replicaid: i64,
    ) -> bool {
        &&& hstring_units(request.store_name) == utf16_units("mystorename"@)
        &&& request.partitionid == partitionid
        &&& request.replicaid == replicaid
        &&& request.local_store_kind == LocalStoreKind::Ese
        &&& self.settings_match(request.settings)
    }

    /// Whether `settings` are the replicator settings of this factory's
    /// replicas: only the address is set, to the factory's port on the local
    /// host.
    pub open spec fn settings_match(&self, settings: ReplicatorSettings) -> bool {
        &&& settings.flags == FABRIC_REPLICATOR_ADDRESS
        &&& hstring_units(settings.replicator_address) == utf16_units(
            addr_text(self.port(), utf16_units("localhost"@)),
        )
    }

    /// Whether `r` is the replica on what the store's creation returned: the
    /// store's replica and a service on the store that has no loop yet and
    /// runs on a clone of the factory's executor; a failure code is passed on.
    pub open spec fn built<P, K>(
        &self,
        created: Result<(P, K), i32>,
        r: Result<Replica<P, K, E>, i32>,
    ) -> bool {
        match created {
            Ok((proxy, store)) => r matches Ok(replica) && replica.proxy() == proxy
                && replica.service().store() == store && !replica.service().is_running()
                && call_ensures(E::clone, (&self.executor(),), replica.service().executor()),
            Err(code) => r matches Err(e) && e == code,
        }
    }
}

/// What a request to stop the background loop found.
#[derive(Debug, Clone, Copy, PartialEq, Eq, Structural)]
pub enum StopOutcome {
    /// No loop was running.
    NotRunning,
    /// The running loop took the signal.
    Signalled,
    /// The loop had ended by itself before the signal came.
    LoopGone,
}

/// What ends a pause of the background loop.
#[derive(Debug, Clone, Copy, PartialEq, Eq, Structural)]
pub enum LoopEvent {
    /// The pause is over.
    Tick,
    /// The stop signal came.
    StopRequested,
}

/// What the background loop does next.
#[derive(Debug, Clone, Copy, PartialEq, Eq, Structural)]
pub enum LoopStep {
    /// Run the next round, which has this number.
    Continue(u64),
    /// Leave the loop.
    Break,
}

/// Seconds that the loop pauses between two rounds.
pub const LOOP_PAUSE_SECONDS: u64 = 10;

/// Decides what follows the pause after round number `counter`: the next
/// round, or the end of the loop if the stop signal came. The round number
/// stays at its largest value once it is reached.
pub fn next_round(counter: u64, event: LoopEvent) -> (step: LoopStep)
    ensures
        step == (match event {
            LoopEvent::Tick => LoopStep::Continue(
                if counter < u64::MAX {
                    (counter + 1) as u64
                } else {
                    counter
                },
            ),
            LoopEvent::StopRequested => LoopStep::Break,
        }),
{
    match event {
        LoopEvent::Tick => LoopStep::Continue(counter.saturating_add(1)),
        LoopEvent::StopRequested => LoopStep::Break,
    }
}

/// The sending end of a loop's stop signal, with the number of the loop.
pub struct StopHandle {
    id: u64,
    tx: Sender<()>,
}

/// The end on which a loop listens for its stop signal, with the number of
/// the loop.
pub struct StopListener {
    id: u64,
    rx: Receiver<()>,
}

impl StopListener {
    /// The number of the loop that listens.
    pub closed spec fn loop_id(&self) -> u64 {
        self.id
    }

    /// The number of the loop that listens.
    pub fn id(&self) -> (id: u64)
        ensures
            id == self.loop_id(),
    {
        self.id
    }

    /// The receiving end of the loop's stop signal.
    pub closed spec fn receiving_end(&self) -> Receiver<()> {
        self.rx
    }

    /// The receiving end, on which the loop waits.
    pub fn into_receiver(self) -> (rx: Receiver<()>)
        ensures
            rx == self.receiving_end(),
    {
        self.rx
    }
}

/// The number of the loop that follows loop `id`.
pub open spec fn next_loop_id(id: u64) -> u64 {
    if id < u64::MAX {
        (id + 1) as u64
    } else {
        0
    }
}

/// What a stop request found, given whether the running loop took the signal.
pub open spec fn outcome_of(delivered: bool) -> StopOutcome {
    if delivered {
        StopOutcome::Signalled
    } else {
        StopOutcome::LoopGone
    }
}

/// The serving part of the replica: the store and the loop that works on it
/// while the replica is primary.
pub struct Service<K, E> {
    kvproxy: K,
    rt: E,
    tx: Option<StopHandle>,
    next_id: u64,
}

impl<K, E> Service<K, E> {
    /// The store.
    pub closed spec fn store(&self) -> K {
        self.kvproxy
    }

    /// The executor that runs the loop.
    pub closed spec fn executor(&self) -> E {
        self.rt
    }

    /// The number of the loop whose stop handle the service holds.
    pub closed spec fn running_id(&self) -> Option<u64> {
        match self.tx {
            Some(handle) => Some(handle.id),
            None => None,
        }
    }

    /// The number that the next loop gets.
    pub closed spec fn next_id(&self) -> u64 {
        self.next_id
    }

    /// Whether the service holds the stop handle of a loop.
    pub open spec fn is_running(&self) -> bool {
        self.running_id() is Some
    }

    /// Whether the stop signal was sent on the handle that the service
    /// holds, and the sending told `delivered`.
    pub closed spec fn stop_sent(&self, delivered: bool) -> bool {
        self.tx is Some && call_ensures(send_stop, (self.tx->Some_0.tx,), delivered)
    }

    /// Whether the handle that the service holds and the receiving end of
    /// `listener` are the two ends of one channel, as its making gave them.
    pub closed spec fn listens_on(&self, listener: StopListener) -> bool {
        self.tx is Some && call_ensures(stop_channel, (), (self.tx->Some_0.tx, listener.rx))
    }

    /// Whether `outcome` is what a stop request on this service finds: with
    /// no handle nothing runs; else the signal is sent on the handle, and the
    /// outcome tells whether the loop took it.
    pub open spec fn stop_found(&self, outcome: StopOutcome) -> bool {
        if self.is_running() {
            exists|delivered: bool| #[trigger]
                self.stop_sent(delivered) && outcome == outcome_of(delivered)
        } else {
            outcome == StopOutcome::NotRunning
        }
    }

    /// A service on `com` without a loop; its first loop has the number 0.
    pub fn new(com: K, rt: E) -> (svc: Service<K, E>)
        ensures
            svc.store() == com,
            svc.executor() == rt,
            !svc.is_running(),
            svc.next_id() == 0,
    {
        Service { kvproxy: com, rt, tx: None, next_id: 0 }
    }

    /// The store.
    pub fn kvproxy(&self) -> (kv: &K)
        ensures
            *kv == self.store(),
    {
        &self.kvproxy
    }

    /// The executor that runs the loop.
    pub fn rt(&self) -> (rt: &E)
        ensures
            *rt == self.executor(),
    {
        &self.rt
    }

    /// Whether the service holds the stop handle of a loop.
    pub fn running(&self) -> (b: bool)
        ensures
            b == self.is_running(),
    {
        self.tx.is_some()
    }

    /// Starts a loop: a loop that runs is told to stop first, then the stop
    /// handle of the new loop is kept, under the next number. The result
    /// tells what became of the old loop and holds the end on which the new
    /// loop listens: it is the other end of the channel whose sending end is
    /// kept, and has the same number.
    pub fn start_loop(&mut self) -> (started: (StopOutcome, StopListener))
        ensures
            old(self).stop_found(started.0),
            final(self).listens_on(started.1),
            final(self).running_id() == Some(old(self).next_id()),
            started.1.loop_id() == old(self).next_id(),
            final(self).next_id() == next_loop_id(old(self).next_id()),
            final(self).store() == old(self).store(),
            final(self).executor() == old(self).executor(),
    {
        let (tx, rx) = stop_channel();
        let stopped = self.stop();
        let id = self.next_id;
        self.tx = Some(StopHandle { id, tx });
        self.next_id = if id < u64::MAX { id + 1 } else { 0 };
        (stopped, StopListener { id, rx })
    }

    /// Tells the loop to stop, if one runs: the stop signal is sent on the
    /// handle that the service holds. Afterwards the service holds no handle.
    pub fn stop(&mut self) -> (outcome: StopOutcome)
        ensures
            old(self).stop_found(outcome),
            !final(self).is_running(),
            final(self).next_id() == old(self).next_id(),
            final(self).store() == old(self).store(),
            final(self).executor() == old(self).executor(),
    {
        match self.tx.take() {
            Some(handle) => {
                let delivered = send_stop(handle.tx);
                assert(old(self).stop_sent(delivered));
                stop_outcome(delivered)
            },
            None => StopOutcome::NotRunning,
        }
    }
}

/// What a stop request found, given whether the running loop took the signal.
pub fn stop_outcome(delivered: bool) -> (outcome: StopOutcome)
    ensures
        outcome == outcome_of(delivered),
{
    if delivered {
        StopOutcome::Signalled
    } else {
        StopOutcome::LoopGone
    }
}

/// The store's own replica, as far as the sample calls it directly.
pub trait ReplicaProxy {
    /// Ends the store's replica at once.
    fn abort(&self);
}

/// Replica of the sample service: the store's replica and the service on it.
pub struct Replica<P, K, E> {
    kv: P,
    svc: Service<K, E>,
}

impl<P, K, E> Replica<P, K, E> {
    /// The store's replica.
    pub closed spec fn proxy(&self) -> P {
        self.kv
    }

    /// The service.
    pub closed spec fn service(&self) -> Service<K, E> {
        self.svc
    }

    /// A replica of `kv` that serves with `svc`.
    pub fn new(kv: P, svc: Service<K, E>) -> (replica: Replica<P, K, E>)
        ensures
            replica.proxy() == kv,
            replica.service() == svc,
    {
        Replica { kv, svc }
    }

    /// The store's replica.
    pub fn kv(&self) -> (kv: &P)
        ensures
            *kv == self.proxy(),
    {
        &self.kv
    }

    /// The service.
    pub fn svc(&self) -> (svc: &Service<K, E>)
        ensures
            *svc == self.service(),
    {
        &self.svc
    }

    /// Whether a change to `newrole` with the answer `changed` starts the
    /// loop: only a change to primary that the store's replica completed.
    pub open spec fn starts_loop(changed: Result<HSTRING, i32>, newrole: ReplicaRole) -> bool {
        changed is Ok && newrole == ReplicaRole::Primary
    }

    /// Follows the answer `changed` of the store's replica to a change of
    /// role. The answer is passed on as it is. After a change to primary that
    /// was completed the loop is started, as `Service::start_loop` does: a
    /// loop that ran is told to stop, and the end on which the new loop
    /// listens comes back. A failed change, and a change to any other role,
    /// leave the service as it is.
    pub fn change_role(&mut self, changed: Result<HSTRING, i32>, newrole: ReplicaRole) -> (r: (
        Result<HSTRING, i32>,
        Option<StopListener>,
    ))
        ensures
            r.0 == changed,
            final(self).proxy() == old(self).proxy(),
            Self::starts_loop(changed, newrole) ==> exists|stopped: StopOutcome| #[trigger]
                old(self).service().stop_found(stopped),
            Self::starts_loop(changed, newrole) ==> (r.1 matches Some(listener) && final(self).service().listens_on(listener)
                && listener.loop_id() == old(self).service().next_id() && final(self).service().running_id() == Some(old(self).service().next_id()) && final(self).service().next_id() == next_loop_id(old(self).service().next_id()) && final(self).service().store() == old(self).service().store() && final(self).service().executor()
                == old(self).service().executor()),
            !Self::starts_loop(changed, newrole) ==> r.1 is None && final(self).service() == old(self).service(),
    {
        let start = match (&changed, newrole) {
            (Ok(_), ReplicaRole::Primary) => true,
            _ => false,
        };
        if start {
            let (stopped, listener) = self.svc.start_loop();
            assert(old(self).service().stop_found(stopped));
            (changed, Some(listener))
        } else {
            (changed, None)
        }
    }

    /// First half of a close: the loop is told to stop. Only then does the
    /// caller close the store's replica.
    pub fn close(&mut self) -> (outcome: StopOutcome)
        ensures
            final(self).proxy() == old(self).proxy(),
            old(self).service().stop_found(outcome),
            !final(self).service().is_running(),
            final(self).service().next_id() == old(self).service().next_id(),
            final(self).service().store() == old(self).service().store(),
            final(self).service().executor() == old(self).service().executor(),
    {
        self.svc.stop()
    }

    /// Aborts the replica: the loop is told to stop, then the store's
    /// replica's `abort` is called, once.
    pub fn abort(&mut self) -> (outcome: StopOutcome) where P: ReplicaProxy
        ensures
            final(self).proxy() == old(self).proxy(),
            old(self).service().stop_found(outcome),
            call_ensures(P::abort, (&old(self).proxy(),), ()),
            !final(self).service().is_running(),
            final(self).service().next_id() == old(self).service().next_id(),
            final(self).service().store() == old(self).service().store(),
            final(self).service().executor() == old(self).service().executor(),
    {
        let outcome = self.svc.stop();
        self.kv.abort();
        outcome
    }
}

/// Milliseconds that a commit of the sample may take.
pub const COMMIT_TIMEOUT_MS: u32 = 1000;

/// One request of a round to the store.
#[derive(Debug, Clone, Copy, PartialEq, Eq, Structural)]
pub enum StoreAction {
    /// Open a transaction.
    CreateTransaction,
    /// Add the sample's value under the sample's key.
    Add,
    /// Commit the open transaction within so many milliseconds.
    Commit(u32),
    /// Remove the sample's key, which was last written at this sequence number.
    Remove(i64),
    /// The round is over without a failure.
    Succeeded,
    /// The round is over with this failure code.
    Failed(i32),
}

/// How far a round has come: the request that the store works on.
#[derive(Debug, Clone, Copy, PartialEq, Eq, Structural)]
pub enum RoundStep {
    Start,
    AddTransaction,
    Adding,
    CommitAdd,
    RemoveTransaction,
    Removing,
    CommitRemove,
    /// The round is over without a failure.
    Finished,
    /// The round is over with this failure code.
    FailedWith(i32),
}

/// One round of the loop: a value is added and committed, then removed at
/// the sequence number of that commit, and the removal is committed.
#[derive(Debug, Clone, Copy, PartialEq, Eq, Structural)]
pub struct RunSingle {
    pub step: RoundStep,
    pub seq: i64,
}

impl RunSingle {
    /// The round after the store answered the pending request with
    /// `outcome`; a commit answers with its sequence number.
    pub open spec fn next(self, outcome: Result<i64, i32>) -> RunSingle {
        match (self.step, outcome) {
            (RoundStep::Finished, _) => self,
            (RoundStep::FailedWith(_), _) => self,
            (RoundStep::Start, _) => RunSingle { step: RoundStep::AddTransaction, ..self },
            (_, Err(code)) => RunSingle { step: RoundStep::FailedWith(code), ..self },
            (RoundStep::AddTransaction, Ok(_)) => RunSingle { step: RoundStep::Adding, ..self },
            (RoundStep::Adding, Ok(_)) => RunSingle { step: RoundStep::CommitAdd, ..self },
            (RoundStep::CommitAdd, Ok(seq)) => RunSingle { step: RoundStep::RemoveTransaction, seq },
            (RoundStep::RemoveTransaction, Ok(_)) => RunSingle { step: RoundStep::Removing, ..self },
            (RoundStep::Removing, Ok(_)) => RunSingle { step: RoundStep::CommitRemove, ..self },
            (RoundStep::CommitRemove, Ok(_)) => RunSingle { step: RoundStep::Finished, ..self },
        }
    }

    /// The request that follows the store's answer `outcome`.
    pub open spec fn request(self, outcome: Result<i64, i32>) -> StoreAction {
        match (self.step, outcome) {
            (RoundStep::Finished, _) => StoreAction::Succeeded,
            (RoundStep::FailedWith(code), _) => StoreAction::Failed(code),
            (RoundStep::Start, _) => StoreAction::CreateTransaction,
            (_, Err(code)) => StoreAction::Failed(code),
            (RoundStep::AddTransaction, Ok(_)) => StoreAction::Add,
            (RoundStep::Adding, Ok(_)) => StoreAction::Commit(COMMIT_TIMEOUT_MS),
            (RoundStep::CommitAdd, Ok(_)) => StoreAction::CreateTransaction,
            (RoundStep::RemoveTransaction, Ok(seq)) => StoreAction::Remove(self.seq),
            (RoundStep::Removing, Ok(_)) => StoreAction::Commit(COMMIT_TIMEOUT_MS),
            (RoundStep::CommitRemove, Ok(_)) => StoreAction::Succeeded,
        }
    }

    /// A round that has not begun.
    pub fn new() -> (round: RunSingle)
        ensures
            round == (RunSingle { step: RoundStep::Start, seq: 0 }),
    {
        RunSingle { step: RoundStep::Start, seq: 0 }
    }

    /// Takes the store's answer to the pending request and says what to ask
    /// next. The first call begins the round, whatever it is given. A failure
    /// ends the round with its code, and a round that is over repeats how it
    /// ended.
    pub fn advance(&mut self, outcome: Result<i64, i32>) -> (action: StoreAction)
        ensures
            *final(self) == old(self).next(outcome),
            action == old(self).request(outcome),
    {
        match self.step {
            RoundStep::Finished => StoreAction::Succeeded,
            RoundStep::FailedWith(code) => StoreAction::Failed(code),
            RoundStep::Start => {
                self.step = RoundStep::AddTransaction;
                StoreAction::CreateTransaction
            },
            step => match outcome {
                Err(code) => {
                    self.step = RoundStep::FailedWith(code);
                    StoreAction::Failed(code)
                },
                Ok(answer) => match step {
                    RoundStep::AddTransaction => {
                        self.step = RoundStep::Adding;
                        StoreAction::Add
                    },
                    RoundStep::Adding => {
                        self.step = RoundStep::CommitAdd;
                        StoreAction::Commit(COMMIT_TIMEOUT_MS)
                    },
                    RoundStep::CommitAdd => {
                        self.step = RoundStep::RemoveTransaction;
                        self.seq = answer;
                        StoreAction::CreateTransaction
                    },
                    RoundStep::RemoveTransaction => {
                        self.step = RoundStep::Removing;
                        StoreAction::Remove(self.seq)
                    },
                    RoundStep::Removing => {
                        self.step = RoundStep::CommitRemove;
                        StoreAction::Commit(COMMIT_TIMEOUT_MS)
                    },
                    _ => {
                        self.step = RoundStep::Finished;
                        StoreAction::Succeeded
                    },
                },
            },
        }
    }
}

/// A round that meets no failure asks for a transaction, the addition and
/// its commit, then for a second transaction, the removal at the sequence
/// number that the first commit answered with, and its commit; then it is
/// over.
pub proof fn lemma_round_without_failure(begin: Result<i64, i32>, seq: i64, a: i64, b: i64)
    ensures
        ({
            let r0 = RunSingle { step: RoundStep::Start, seq: 0 };
            let r1 = r0.next(begin);
            let r2 = r1.next(Ok(a));
            let r3 = r2.next(Ok(a));
            let r4 = r3.next(Ok(seq));
            let r5 = r4.next(Ok(b));
            let r6 = r5.next(Ok(b));
            let r7 = r6.next(Ok(b));
            &&& r0.request(begin) == StoreAction::CreateTransaction
            &&& r1.request(Ok(a)) == StoreAction::Add
            &&& r2.request(Ok(a)) == StoreAction::Commit(COMMIT_TIMEOUT_MS)
            &&& r3.request(Ok(seq)) == StoreAction::CreateTransaction
            &&& r4.request(Ok(b)) == StoreAction::Remove(seq)
            &&& r5.request(Ok(b)) == StoreAction::Commit(COMMIT_TIMEOUT_MS)
            &&& r6.request(Ok(b)) == StoreAction::Succeeded
            &&& r7.step == RoundStep::Finished
        }),
{
}

/// A failure of any request ends the round with its code, and a round that
/// is over stays over and repeats how it ended.
pub proof fn lemma_round_ends_on_failure(round: RunSingle, code: i32, later: Result<i64, i32>)
    requires
        round.step != RoundStep::Start,
        round.step != RoundStep::Finished,
        !(round.step is FailedWith),
    ensures
        round.request(Err(code)) == StoreAction::Failed(code),
        round.next(Err(code)).step == RoundStep::FailedWith(code),
        round.next(Err(code)).next(later) == round.next(Err(code)),
        round.next(Err(code)).request(later) == StoreAction::Failed(code),
{
}

} // verus!
