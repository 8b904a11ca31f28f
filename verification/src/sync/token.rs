//! One-way, broadcast-once cancellation signal with a wait-list.

use vstd::prelude::*;

verus! {

/// Outcome of polling an awaitable.
#[derive(Debug)]
pub enum Poll<T> {
    Ready(T),
    Pending,
}

/// Mathematical state of a cancellation token: the flag and the wake-handles
/// that wait for it, in registration order.
pub ghost struct TokenState<W> {
    pub cancelled: bool,
    pub waiters: Seq<W>,
}

impl<W> TokenState<W> {
    /// A token on which nothing has happened yet.
    pub open spec fn fresh() -> Self {
        TokenState { cancelled: false, waiters: Seq::empty() }
    }

    /// No wake-handle stays queued once the token is cancelled.
    pub open spec fn wf(self) -> bool {
        self.cancelled ==> self.waiters.len() == 0
    }

    /// The token after a cancellation: the flag is set and the wait-list is drained.
    pub open spec fn cancel(self) -> Self {
        TokenState { cancelled: true, waiters: Seq::empty() }
    }

    /// The wake-handles that a cancellation hands out, each one exactly as
    /// often as it was registered.
    pub open spec fn woken(self) -> Seq<W> {
        self.waiters
    }

    /// The token after an awaiter polled it with `waker`: the handle is queued
    /// only while the token is not cancelled.
    pub open spec fn poll(self, waker: W) -> Self {
        if self.cancelled {
            self
        } else {
            TokenState { cancelled: false, waiters: self.waiters.push(waker) }
        }
    }

    /// The token after `n` cancellations in a row.
    pub open spec fn cancel_times(self, n: nat) -> Self
        decreases n,
    {
        if n == 0 {
            self
        } else {
            self.cancel().cancel_times((n - 1) as nat)
        }
    }
}

/// Cancellation flag together with the wake-handles of the tasks that await it.
///
/// The value is the state that a lock guards; `W` is the wake-handle of the
/// host scheduler.
pub struct CancellationToken<W> {
    cancelled: bool,
    wakers: Vec<W>,
}

impl<W> View for CancellationToken<W> {
    type V = TokenState<W>;

    closed spec fn view(&self) -> TokenState<W> {
        TokenState { cancelled: self.cancelled, waiters: self.wakers@ }
    }
}

impl<W> CancellationToken<W> {
    /// A token in the not-cancelled state with no waiter.
    pub fn new() -> (token: Self)
        ensures
            token@ == TokenState::<W>::fresh(),
    {
        CancellationToken { cancelled: false, wakers: Vec::new() }
    }

    /// Sets the flag and drains the wait-list. The drained handles are the
    /// result, in registration order: the caller wakes each of them once.
    pub fn cancel(&mut self) -> (woken: Vec<W>)
        ensures
            final(self)@ == old(self)@.cancel(),
            woken@ == old(self)@.woken(),
    {
        self.cancelled = true;
        let mut woken: Vec<W> = Vec::new();
        std::mem::swap(&mut self.wakers, &mut woken);
        woken
    }

    /// Whether cancellation has been requested.
    pub fn is_cancelled(&self) -> (cancelled: bool)
        ensures
            cancelled == self@.cancelled,
    {
        self.cancelled
    }

    /// An awaitable that resolves once the token is cancelled; it is already
    /// resolved when the token is.
    pub fn cancelled(&self) -> (fut: CancelledFuture)
        ensures
            fut.is_resolved() == self@.cancelled,
    {
        CancelledFuture { resolved: self.cancelled }
    }
}

impl<W> Default for CancellationToken<W> {
    /// A token in the not-cancelled state with no waiter.
    fn default() -> (token: Self)
        ensures
            token@ == TokenState::<W>::fresh(),
    {
        CancellationToken::new()
    }
}

/// Awaitable for the cancellation of a token.
pub struct CancelledFuture {
    resolved: bool,
}

impl CancelledFuture {
    /// Whether the awaitable has observed the cancellation.
    pub closed spec fn is_resolved(&self) -> bool {
        self.resolved
    }

    /// Whether the awaitable has observed the cancellation.
    pub fn resolved(&self) -> (r: bool)
        ensures
            r == self.is_resolved(),
    {
        self.resolved
    }

    /// Polls for the cancellation of `token`. On a cancelled token the result
    /// is `Ready` and `waker` is never queued; otherwise `waker` joins the
    /// wait-list and the result is `Pending`.
    pub fn poll<W>(&mut self, token: &mut CancellationToken<W>, waker: W) -> (r: Poll<()>)
        ensures
            final(token)@ == old(token)@.poll(waker),
            r == (if old(token)@.cancelled { Poll::Ready(()) } else { Poll::Pending }),
            final(self).is_resolved() == (old(self).is_resolved() || old(token)@.cancelled),
    {
        if token.cancelled {
            self.resolved = true;
            Poll::Ready(())
        } else {
            token.wakers.push(waker);
            Poll::Pending
        }
    }
}

/// Any number of cancellations, one or more, leaves the token in the state
/// that the first one produced: the flag is set and stays set.
pub proof fn lemma_cancel_is_idempotent<W>(s: TokenState<W>, n: nat)
    requires
        n >= 1,
    ensures
        s.cancel_times(n) == s.cancel(),
        s.cancel_times(n).cancelled,
    decreases n,
{
    if n > 1 {
        lemma_cancel_is_idempotent(s.cancel(), (n - 1) as nat);
    } else {
        assert(s.cancel().cancel_times(0) == s.cancel());
    }
}

/// No transition clears the flag.
pub proof fn lemma_cancelled_is_permanent<W>(s: TokenState<W>, waker: W)
    requires
        s.cancelled,
    ensures
        s.cancel().cancelled,
        s.poll(waker).cancelled,
{
}

/// Every transition of a well-formed token leaves it well-formed.
pub proof fn lemma_transitions_keep_wf<W>(s: TokenState<W>, waker: W)
    requires
        s.wf(),
    ensures
        TokenState::<W>::fresh().wf(),
        s.cancel().wf(),
        s.poll(waker).wf(),
{
}

/// A waiter that polled before the cancellation is queued, is handed out by
/// the cancellation behind the waiters that were there before it, and is
/// handed out by no later cancellation; its next poll finds the flag set and
/// queues nothing.
pub proof fn lemma_waiter_before_cancel<W>(s: TokenState<W>, waker: W, again: W)
    requires
        s.wf(),
        !s.cancelled,
    ensures
        s.poll(waker).waiters == s.waiters.push(waker),
        s.poll(waker).woken() == s.waiters.push(waker),
        s.poll(waker).cancel().woken() == Seq::<W>::empty(),
        s.poll(waker).cancel().cancelled,
        s.poll(waker).cancel().poll(again) == s.poll(waker).cancel(),
{
}

/// A waiter that polls after the cancellation finds the flag set on its first
/// poll and is never queued.
pub proof fn lemma_waiter_after_cancel<W>(s: TokenState<W>, waker: W)
    requires
        s.wf(),
    ensures
        s.cancel().poll(waker) == s.cancel(),
        s.cancel().poll(waker).waiters == Seq::<W>::empty(),
{
}

} // verus!
