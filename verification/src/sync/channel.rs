//! Single-producer, single-consumer channel of capacity one, and the
//! completion callback that feeds it.

use vstd::prelude::*;
use crate::error::BridgeError;
use crate::sync::slot::OnceSlot;
use crate::sync::token::Poll;

verus! {

/// Mathematical state of a completion channel.
pub ghost struct ChannelState<T, W> {
    /// The single slot.
    pub slot: OnceSlot<T>,
    /// The wake-handle of the consumer, while it waits.
    pub waiter: Option<W>,
    /// Whether the producer is gone without a value.
    pub closed: bool,
}

impl<T, W> ChannelState<T, W> {
    /// A channel on which nothing has happened yet.
    pub open spec fn fresh() -> Self {
        ChannelState { slot: OnceSlot::Empty, waiter: None, closed: false }
    }

    /// A wake-handle is kept only while a value can still come, and a channel
    /// is closed only without a value.
    pub open spec fn wf(self) -> bool {
        &&& self.waiter is Some ==> self.is_open()
        &&& self.closed ==> self.slot is Empty
    }

    /// Whether a value can still come: none was written and the producer is
    /// still there.
    pub open spec fn is_open(self) -> bool {
        self.slot is Empty && !self.closed
    }

    /// The channel after the producer offered `value`.
    pub open spec fn send(self, value: T) -> Self {
        if self.is_open() {
            ChannelState { slot: OnceSlot::Full(value), waiter: None, closed: false }
        } else {
            self
        }
    }

    /// What the producer is told: the consumer's wake-handle, if one waits,
    /// or that the channel was satisfied or closed before.
    pub open spec fn sent(self) -> Result<Option<W>, BridgeError> {
        if self.is_open() {
            Ok(self.waiter)
        } else {
            Err(BridgeError::CallbackMisuse)
        }
    }

    /// The channel after the producer left: without a value the channel is
    /// closed, with one it stays as it is.
    pub open spec fn close(self) -> Self {
        if self.is_open() {
            ChannelState { slot: OnceSlot::Empty, waiter: None, closed: true }
        } else {
            self
        }
    }

    /// The wake-handle that the producer's leaving hands out.
    pub open spec fn close_wakes(self) -> Option<W> {
        if self.is_open() {
            self.waiter
        } else {
            None
        }
    }

    /// The channel after the consumer polled it with `waker`.
    pub open spec fn poll(self, waker: W) -> Self {
        match self.slot {
            OnceSlot::Empty => if self.closed {
                self
            } else {
                ChannelState { slot: OnceSlot::Empty, waiter: Some(waker), closed: false }
            },
            OnceSlot::Full(_) => ChannelState { slot: OnceSlot::Taken, waiter: None, ..self },
            OnceSlot::Taken => self,
        }
    }

    /// What a read without waiting reports.
    pub open spec fn received(self) -> Result<T, BridgeError> {
        match self.slot {
            OnceSlot::Empty => if self.closed {
                Err(BridgeError::Cancelled)
            } else {
                Err(BridgeError::NotReady)
            },
            OnceSlot::Full(value) => Ok(value),
            OnceSlot::Taken => Err(BridgeError::AlreadyClaimed),
        }
    }

    /// What the consumer's poll reports: it is pending only while a value can
    /// still come.
    pub open spec fn polled(self) -> Poll<Result<T, BridgeError>> {
        if self.is_open() {
            Poll::Pending
        } else {
            Poll::Ready(self.received())
        }
    }
}

/// Channel that carries one value from the completion callback to the task
/// that awaits it.
pub struct CompletionChannel<T, W> {
    slot: OnceSlot<T>,
    waiter: Option<W>,
    closed: bool,
}

impl<T, W> View for CompletionChannel<T, W> {
    type V = ChannelState<T, W>;

    closed spec fn view(&self) -> ChannelState<T, W> {
        ChannelState { slot: self.slot, waiter: self.waiter, closed: self.closed }
    }
}

impl<T, W> CompletionChannel<T, W> {
    /// An empty channel with no waiting consumer.
    pub fn new() -> (channel: Self)
        ensures
            channel@ == ChannelState::<T, W>::fresh(),
    {
        CompletionChannel { slot: OnceSlot::Empty, waiter: None, closed: false }
    }

    /// Whether a value waits in the channel.
    pub fn is_ready(&self) -> (b: bool)
        ensures
            b == (self@.slot is Full),
    {
        self.slot.is_full()
    }

    /// Whether nothing was written yet.
    pub fn slot_is_empty(&self) -> (b: bool)
        ensures
            b == (self@.slot is Empty),
    {
        self.slot.is_empty()
    }

    /// Whether the producer is gone without a value.
    pub fn is_closed(&self) -> (b: bool)
        ensures
            b == self@.closed,
    {
        self.closed
    }

    /// Producer side: writes `value` into the empty slot and hands back the
    /// consumer's wake-handle, which the caller wakes. A channel that was
    /// written or closed before rejects the value with `CallbackMisuse` and
    /// is unchanged.
    pub fn send(&mut self, value: T) -> (r: Result<Option<W>, BridgeError>)
        ensures
            final(self)@ == old(self)@.send(value),
            r == old(self)@.sent(),
    {
        if self.closed {
            return Err(BridgeError::CallbackMisuse);
        }
        match self.slot.fill(value) {
            Ok(()) => Ok(self.waiter.take()),
            Err(e) => Err(e),
        }
    }

    /// Producer side: the producer leaves. If it wrote no value, the channel
    /// is closed and the consumer's wake-handle is handed back, which the
    /// caller wakes: the consumer's next poll is ready with `Cancelled`. After
    /// a value was written nothing changes.
    pub fn close(&mut self) -> (woken: Option<W>)
        ensures
            final(self)@ == old(self)@.close(),
            woken == old(self)@.close_wakes(),
    {
        if self.slot.is_empty() && !self.closed {
            self.closed = true;
            self.waiter.take()
        } else {
            None
        }
    }

    /// Consumer side: takes the value if it is there; while one can still
    /// come, keeps `waker` as the handle to wake and reports `Pending`. A
    /// channel whose value was taken before reports `AlreadyClaimed`, one
    /// whose producer is gone without a value reports `Cancelled`.
    pub fn poll(&mut self, waker: W) -> (r: Poll<Result<T, BridgeError>>)
        ensures
            final(self)@ == old(self)@.poll(waker),
            r == old(self)@.polled(),
    {
        match self.slot.take() {
            Ok(value) => {
                self.waiter = None;
                Poll::Ready(Ok(value))
            },
            Err(BridgeError::NotReady) => {
                if self.closed {
                    Poll::Ready(Err(BridgeError::Cancelled))
                } else {
                    self.waiter = Some(waker);
                    Poll::Pending
                }
            },
            Err(_) => Poll::Ready(Err(BridgeError::AlreadyClaimed)),
        }
    }

    /// Consumer side, without waiting: takes the value if it is there. If it
    /// is not, reports `NotReady` while one can still come, `Cancelled` if the
    /// producer is gone, and `AlreadyClaimed` if the value was taken before.
    pub fn try_recv(&mut self) -> (r: Result<T, BridgeError>)
        ensures
            final(self)@.slot == old(self)@.slot.spec_take(),
            final(self)@.waiter == (if old(self)@.slot is Full {
                None::<W>
            } else {
                old(self)@.waiter
            }),
            final(self)@.closed == old(self)@.closed,
            r == old(self)@.received(),
    {
        match self.slot.take() {
            Ok(value) => {
                self.waiter = None;
                Ok(value)
            },
            Err(BridgeError::NotReady) => {
                if self.closed {
                    Err(BridgeError::Cancelled)
                } else {
                    Err(BridgeError::NotReady)
                }
            },
            Err(_) => Err(BridgeError::AlreadyClaimed),
        }
    }
}

/// The object registered with a Begin call. The foreign side invokes it once,
/// from any thread, when the operation has finished.
pub struct CompletionCallback {
    invoked: bool,
}

impl CompletionCallback {
    /// Whether the callback was invoked.
    pub closed spec fn was_invoked(&self) -> bool {
        self.invoked
    }

    /// A callback that was not invoked yet.
    pub fn new() -> (callback: Self)
        ensures
            !callback.was_invoked(),
    {
        CompletionCallback { invoked: false }
    }

    /// Whether the callback was invoked.
    pub fn invoked(&self) -> (b: bool)
        ensures
            b == self.was_invoked(),
    {
        self.invoked
    }

    /// Whether an invocation on `channel` is the first one.
    pub open spec fn accepts<T, W>(&self, channel: ChannelState<T, W>) -> bool {
        !self.was_invoked() && channel.is_open()
    }

    /// The foreign side signals completion with `value`. The first invocation
    /// pushes the value into `channel` and hands back the wake-handle of the
    /// pending poll. Any further one, and one on a channel that is satisfied
    /// or closed already, is rejected with `CallbackMisuse` and changes
    /// nothing.
    pub fn invoke<T, W>(&mut self, channel: &mut CompletionChannel<T, W>, value: T) -> (r: Result<
        Option<W>,
        BridgeError,
    >)
        ensures
            final(self).was_invoked() == (old(self).was_invoked() || old(channel)@.is_open()),
            old(self).accepts(old(channel)@) ==> final(channel)@ == old(channel)@.send(value) && r
                == Ok::<Option<W>, BridgeError>(old(channel)@.waiter),
            !old(self).accepts(old(channel)@) ==> final(channel)@ == old(channel)@ && r == Err::<
                Option<W>,
                BridgeError,
            >(BridgeError::CallbackMisuse),
    {
        if self.invoked {
            return Err(BridgeError::CallbackMisuse);
        }
        let r = channel.send(value);
        if r.is_ok() {
            self.invoked = true;
        }
        r
    }
}

/// Every transition of a well-formed channel leaves it well-formed.
pub proof fn lemma_channel_keeps_wf<T, W>(c: ChannelState<T, W>, value: T, waker: W)
    requires
        c.wf(),
    ensures
        ChannelState::<T, W>::fresh().wf(),
        c.send(value).wf(),
        c.close().wf(),
        c.poll(waker).wf(),
{
}

/// The value that the consumer observes is the one that the single producer
/// wrote: a poll that follows the first write is ready with exactly that
/// value, whatever poll came before the write.
pub proof fn lemma_channel_delivers_what_was_sent<T, W>(value: T, early: W, late: W)
    ensures
        ChannelState::<T, W>::fresh().send(value).polled() == Poll::Ready(
            Ok::<T, BridgeError>(value),
        ),
        ChannelState::<T, W>::fresh().poll(early).polled() == Poll::<
            Result<T, BridgeError>,
        >::Pending,
        ChannelState::<T, W>::fresh().poll(early).sent() == Ok::<Option<W>, BridgeError>(
            Some(early),
        ),
        ChannelState::<T, W>::fresh().poll(early).send(value).polled() == Poll::Ready(
            Ok::<T, BridgeError>(value),
        ),
        ChannelState::<T, W>::fresh().poll(early).send(value).poll(late).polled() == Poll::Ready(
            Err::<T, BridgeError>(BridgeError::AlreadyClaimed),
        ),
{
}

/// A consumer whose producer leaves without a value does not wait for ever:
/// the leaving hands out the consumer's wake-handle, every poll after it is
/// ready with `Cancelled`, and a value that is offered later is rejected.
pub proof fn lemma_vanished_producer_ends_the_wait<T, W>(early: W, late: W, value: T)
    ensures
        ChannelState::<T, W>::fresh().poll(early).close_wakes() == Some(early),
        ChannelState::<T, W>::fresh().poll(early).close().polled() == Poll::Ready(
            Err::<T, BridgeError>(BridgeError::Cancelled),
        ),
        ChannelState::<T, W>::fresh().poll(early).close().poll(late)
            == ChannelState::<T, W>::fresh().poll(early).close(),
        ChannelState::<T, W>::fresh().poll(early).close().sent() == Err::<Option<W>, BridgeError>(
            BridgeError::CallbackMisuse,
        ),
        ChannelState::<T, W>::fresh().send(value).close() == ChannelState::<T, W>::fresh().send(
            value,
        ),
{
}

/// Exactly one completion is accepted: once a value was sent, every further
/// send is rejected and changes nothing, whether or not the value was read in
/// between.
pub proof fn lemma_second_completion_is_rejected<T, W>(
    c: ChannelState<T, W>,
    first: T,
    second: T,
    waker: W,
)
    ensures
        c.send(first).sent() == Err::<Option<W>, BridgeError>(BridgeError::CallbackMisuse),
        c.send(first).send(second) == c.send(first),
        c.send(first).poll(waker).sent() == Err::<Option<W>, BridgeError>(
            BridgeError::CallbackMisuse,
        ),
        c.send(first).poll(waker).send(second) == c.send(first).poll(waker),
{
}

} // verus!
