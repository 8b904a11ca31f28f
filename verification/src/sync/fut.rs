//! Future over a completion channel that maps the raw payload once.

use vstd::prelude::*;
use crate::error::BridgeError;
use crate::sync::channel::{ChannelState, CompletionChannel};
use crate::sync::slot::OnceSlot;
use crate::sync::token::Poll;

verus! {

/// A future of the bridge: a poll either is pending or yields `Output` once.
pub trait FabricFuture {
    /// What the future resolves to.
    type Output;
}

/// Future that waits for the raw result of an operation on a completion
/// channel and maps a successful payload with a one-shot function.
#[verifier::reject_recursive_types(T)]
#[verifier::reject_recursive_types(R)]
pub struct FabricFutureImpl<T, R, F, W> where F: FnOnce(T) -> R {
    inner: CompletionChannel<Result<T, i32>, W>,
    mapper: OnceSlot<F>,
}

impl<T, R, F, W> FabricFuture for FabricFutureImpl<T, R, F, W> where F: FnOnce(T) -> R {
    type Output = Result<R, BridgeError>;
}

/// Whether a poll in this state runs the mapping function.
pub open spec fn runs_mapper<T, F, W>(
    channel: ChannelState<Result<T, i32>, W>,
    mapper: OnceSlot<F>,
) -> bool {
    channel.slot matches OnceSlot::Full(Ok(_)) && mapper is Full
}

/// What a poll reports that does not run the mapping function.
pub open spec fn unmapped_outcome<T, R, F, W>(
    channel: ChannelState<Result<T, i32>, W>,
    mapper: OnceSlot<F>,
) -> Poll<Result<R, BridgeError>>
    recommends
        !runs_mapper(channel, mapper),
{
    match channel.slot {
        OnceSlot::Empty => if channel.closed {
            Poll::Ready(Err(BridgeError::Cancelled))
        } else {
            Poll::Pending
        },
        OnceSlot::Full(Err(code)) => if mapper is Full {
            Poll::Ready(Err(BridgeError::OperationFailed(code)))
        } else {
            Poll::Ready(Err(BridgeError::AlreadyClaimed))
        },
        _ => Poll::Ready(Err(BridgeError::AlreadyClaimed)),
    }
}

impl<T, R, F, W> FabricFutureImpl<T, R, F, W> where F: FnOnce(T) -> R {
    /// The channel that the future reads.
    pub closed spec fn channel(&self) -> ChannelState<Result<T, i32>, W> {
        self.inner@
    }

    /// The slot of the mapping function.
    pub closed spec fn mapper(&self) -> OnceSlot<F> {
        self.mapper
    }

    /// A future over `inner` that maps a successful payload with `mapper`.
    pub fn new(inner: CompletionChannel<Result<T, i32>, W>, mapper: F) -> (fut: Self)
        ensures
            fut.channel() == inner@,
            fut.mapper() == OnceSlot::Full(mapper),
    {
        FabricFutureImpl { inner, mapper: OnceSlot::Full(mapper) }
    }

    /// Whether the mapping function was taken out of its slot.
    pub fn is_terminated(&self) -> (b: bool)
        ensures
            b == (self.mapper() is Taken),
    {
        self.mapper.is_taken()
    }

    /// Producer side: the completion callback delivers the raw result.
    /// The result is the wake-handle of the pending poll, which the caller
    /// wakes; a second delivery is rejected with `CallbackMisuse`.
    pub fn complete(&mut self, raw: Result<T, i32>) -> (r: Result<Option<W>, BridgeError>)
        ensures
            final(self).channel() == old(self).channel().send(raw),
            final(self).mapper() == old(self).mapper(),
            r == old(self).channel().sent(),
    {
        self.inner.send(raw)
    }

    /// Producer side: the completion callback is gone without a result. The
    /// wake-handle of the pending poll comes back, which the caller wakes;
    /// the next poll is ready with `Cancelled` and leaves the mapping function
    /// in its slot.
    pub fn close(&mut self) -> (woken: Option<W>)
        ensures
            final(self).channel() == old(self).channel().close(),
            final(self).mapper() == old(self).mapper(),
            woken == old(self).channel().close_wakes(),
    {
        self.inner.close()
    }

    /// Polls the channel. While a result can still come, `waker` is kept and
    /// the poll is pending. The first poll that finds a result takes the
    /// mapping function out of its slot: a successful payload is mapped by it,
    /// a failure code is passed on as `OperationFailed`. Every later poll
    /// reports `AlreadyClaimed` and runs nothing. If the producer is gone
    /// without a result, the poll reports `Cancelled` and the mapping function
    /// stays in its slot.
    pub fn poll(&mut self, waker: W) -> (r: Poll<Result<R, BridgeError>>)
        requires
            forall|f: F, v: T| old(self).mapper() == OnceSlot::Full(f) ==> call_requires(f, (v,)),
        ensures
            final(self).channel() == old(self).channel().poll(waker),
            final(self).mapper() == (if old(self).channel().slot is Full {
                old(self).mapper().spec_take()
            } else {
                old(self).mapper()
            }),
            !runs_mapper(old(self).channel(), old(self).mapper()) ==> r == unmapped_outcome::<
                T,
                R,
                F,
                W,
            >(old(self).channel(), old(self).mapper()),
            runs_mapper(old(self).channel(), old(self).mapper()) ==> (r matches Poll::Ready(
                Ok(produced),
            ) && call_ensures(
                old(self).mapper()->Full_0,
                (old(self).channel().slot->Full_0->Ok_0,),
                produced,
            )),
    {
        let received = self.inner.poll(waker);
        map_received(&mut self.mapper, received)
    }
}

/// What a poll reports for what the channel gave, where the mapping function
/// does not run.
pub open spec fn unmapped_received<T, R, F>(
    received: Poll<Result<Result<T, i32>, BridgeError>>,
    mapper: OnceSlot<F>,
) -> Poll<Result<R, BridgeError>> {
    match received {
        Poll::Pending => Poll::Pending,
        Poll::Ready(Err(e)) => Poll::Ready(Err(e)),
        Poll::Ready(Ok(Err(code))) => if mapper is Full {
            Poll::Ready(Err(BridgeError::OperationFailed(code)))
        } else {
            Poll::Ready(Err(BridgeError::AlreadyClaimed))
        },
        Poll::Ready(Ok(Ok(_))) => Poll::Ready(Err(BridgeError::AlreadyClaimed)),
    }
}

/// Second half of a poll: turns what the channel gave into what the future
/// reports. It touches no channel, so that a caller who shares the channel
/// runs the mapping function after it has let the channel go. A raw result
/// takes the mapping function out of its slot: a payload is mapped by it, a
/// failure code is passed on as `OperationFailed`; without a mapping function
/// the report is `AlreadyClaimed`. A pending channel and a channel error are
/// passed on and leave the slot as it is.
pub fn map_received<T, R, F>(
    mapper: &mut OnceSlot<F>,
    received: Poll<Result<Result<T, i32>, BridgeError>>,
) -> (r: Poll<Result<R, BridgeError>>) where F: FnOnce(T) -> R
    requires
        forall|f: F, v: T| *old(mapper) == OnceSlot::Full(f) ==> call_requires(f, (v,)),
    ensures
        *final(mapper) == (if received matches Poll::Ready(Ok(_)) {
            old(mapper).spec_take()
        } else {
            *old(mapper)
        }),
        (received matches Poll::Ready(Ok(Ok(_))) && *old(mapper) is Full) ==> (r matches Poll::Ready(
            Ok(produced),
        ) && call_ensures(
            old(mapper)->Full_0,
            (received->Ready_0->Ok_0->Ok_0,),
            produced,
        )),
        !(received matches Poll::Ready(Ok(Ok(_))) && *old(mapper) is Full) ==> r
            == unmapped_received::<T, R, F>(received, *old(mapper)),
{
    match received {
        Poll::Pending => Poll::Pending,
        Poll::Ready(Err(e)) => Poll::Ready(Err(e)),
        Poll::Ready(Ok(raw)) => {
            match mapper.take() {
                Err(_) => Poll::Ready(Err(BridgeError::AlreadyClaimed)),
                Ok(f) => match raw {
                    Ok(payload) => Poll::Ready(Ok(f(payload))),
                    Err(code) => Poll::Ready(Err(BridgeError::OperationFailed(code))),
                },
            }
        },
    }
}

/// The mapping function runs at most once: a poll that runs it leaves a state
/// in which no poll runs it, whatever is delivered or polled afterwards.
pub proof fn lemma_mapper_runs_at_most_once<T, F, W>(
    channel: ChannelState<Result<T, i32>, W>,
    mapper: OnceSlot<F>,
    waker: W,
    later: Result<T, i32>,
)
    requires
        runs_mapper(channel, mapper),
    ensures
        !runs_mapper(channel.poll(waker), mapper.spec_take()),
        !runs_mapper(channel.poll(waker).send(later), mapper.spec_take()),
        !runs_mapper(channel.poll(waker).poll(waker), mapper.spec_take()),
{
}

/// After a poll was ready, every later poll is ready with `AlreadyClaimed`.
pub proof fn lemma_poll_after_ready_is_rejected<T, R, F, W>(
    channel: ChannelState<Result<T, i32>, W>,
    mapper: OnceSlot<F>,
    waker: W,
)
    requires
        channel.slot is Full,
    ensures
        !runs_mapper(channel.poll(waker), mapper.spec_take()),
        unmapped_outcome::<T, R, F, W>(channel.poll(waker), mapper.spec_take()) == Poll::<
            Result<R, BridgeError>,
        >::Ready(Err(BridgeError::AlreadyClaimed)),
{
}

/// A future whose producer is gone without a result is ready with
/// `Cancelled`, runs no mapping function and keeps it in its slot.
pub proof fn lemma_closed_channel_ends_the_future<T, R, F, W>(
    channel: ChannelState<Result<T, i32>, W>,
    mapper: OnceSlot<F>,
    waker: W,
)
    requires
        channel.is_open(),
    ensures
        !runs_mapper(channel.close().poll(waker), mapper),
        unmapped_outcome::<T, R, F, W>(channel.close(), mapper) == Poll::<
            Result<R, BridgeError>,
        >::Ready(Err(BridgeError::Cancelled)),
        channel.close().poll(waker) == channel.close(),
{
}

} // verus!
