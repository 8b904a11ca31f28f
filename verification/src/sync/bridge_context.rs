//! Operation context: pairs a Begin call with the task that computes its
//! result and with the End call that claims it.

use vstd::prelude::*;
use crate::error::BridgeError;
use crate::sync::channel::{ChannelState, CompletionChannel};
use crate::sync::slot::OnceSlot;
use crate::sync::token::{CancellationToken, CancelledFuture, Poll, TokenState};

verus! {

/// What the caller does after an outcome was stored: it signals the foreign
/// notification sink and wakes the task that waits for the result, if any.
pub struct Notification<W> {
    /// The notification sink that was registered with the Begin call.
    pub callback: u64,
    /// The wake-handle of the task that waits for the result.
    pub waiter: Option<W>,
}

/// Mathematical state of an operation context.
pub ghost struct ContextState<T, W> {
    /// The notification sink of the foreign caller.
    pub callback: u64,
    /// The channel that carries the outcome from the task to the End call.
    pub outcome: ChannelState<Result<T, i32>, W>,
    /// The cancellation token of the operation.
    pub token: TokenState<W>,
}

/// What a claim reports for a raw outcome slot and the cancellation flag.
pub open spec fn claimed_outcome<T>(slot: OnceSlot<Result<T, i32>>, cancelled: bool) -> Result<
    T,
    BridgeError,
> {
    match slot {
        OnceSlot::Empty => if cancelled {
            Err(BridgeError::Cancelled)
        } else {
            Err(BridgeError::NotReady)
        },
        OnceSlot::Full(Ok(payload)) => Ok(payload),
        OnceSlot::Full(Err(code)) => Err(BridgeError::OperationFailed(code)),
        OnceSlot::Taken => Err(BridgeError::AlreadyClaimed),
    }
}

impl<T, W> ContextState<T, W> {
    /// The context of an operation that has just begun.
    pub open spec fn fresh(callback: u64) -> Self {
        ContextState { callback, outcome: ChannelState::fresh(), token: TokenState::fresh() }
    }

    /// All parts are well-formed.
    pub open spec fn wf(self) -> bool {
        self.outcome.wf() && self.token.wf()
    }

    /// Whether the outcome was stored.
    pub open spec fn is_completed(self) -> bool {
        !(self.outcome.slot is Empty)
    }

    /// Whether the task is gone without an outcome.
    pub open spec fn is_abandoned(self) -> bool {
        self.outcome.closed
    }

    /// Whether the End side is told `Cancelled` while nothing is stored: the
    /// operation was cancelled from outside, or its task is gone.
    pub open spec fn gave_up(self) -> bool {
        self.token.cancelled || self.outcome.closed
    }

    /// The context after the task left without an outcome.
    pub open spec fn abandon(self) -> Self {
        ContextState { outcome: self.outcome.close(), ..self }
    }

    /// The context after the task offered `outcome`.
    pub open spec fn complete(self, outcome: Result<T, i32>) -> Self {
        ContextState { outcome: self.outcome.send(outcome), ..self }
    }

    /// What the task is told when it offers an outcome.
    pub open spec fn completed(self) -> Result<Notification<W>, BridgeError> {
        if self.outcome.is_open() {
            Ok(Notification { callback: self.callback, waiter: self.outcome.waiter })
        } else {
            Err(BridgeError::CallbackMisuse)
        }
    }

    /// The context after a cancellation from outside.
    pub open spec fn cancel(self) -> Self {
        ContextState { token: self.token.cancel(), ..self }
    }

    /// The context after a claim without waiting.
    pub open spec fn claim(self) -> Self {
        if self.outcome.slot is Full {
            ContextState {
                outcome: ChannelState { slot: OnceSlot::Taken, waiter: None, ..self.outcome },
                ..self
            }
        } else {
            self
        }
    }

    /// What a claim reports.
    pub open spec fn claimed(self) -> Result<T, BridgeError> {
        claimed_outcome(self.outcome.slot, self.gave_up())
    }

    /// The context after the End side polled for the result with `waker`.
    pub open spec fn poll_result(self, waker: W) -> Self {
        ContextState { outcome: self.outcome.poll(waker), ..self }
    }

    /// What a poll for the result reports.
    pub open spec fn polled_result(self) -> Poll<Result<T, BridgeError>> {
        if self.outcome.is_open() {
            Poll::Pending
        } else {
            Poll::Ready(claimed_outcome(self.outcome.slot, self.gave_up()))
        }
    }
}

/// Context of one outstanding operation. It is handed back by the Begin call
/// as the pending-operation handle, filled by the task that runs the
/// operation, and claimed by the End call.
pub struct BridgeContext<T, W> {
    callback: u64,
    outcome: CompletionChannel<Result<T, i32>, W>,
    token: CancellationToken<W>,
}

impl<T, W> View for BridgeContext<T, W> {
    type V = ContextState<T, W>;

    closed spec fn view(&self) -> ContextState<T, W> {
        ContextState { callback: self.callback, outcome: self.outcome@, token: self.token@ }
    }
}

impl<T, W> BridgeContext<T, W> {
    /// The context of a new operation whose completion is signalled to
    /// `callback`. Its cancellation token belongs to this operation alone.
    pub fn make(callback: u64) -> (ctx: Self)
        ensures
            ctx@ == ContextState::<T, W>::fresh(callback),
    {
        BridgeContext {
            callback,
            outcome: CompletionChannel::new(),
            token: CancellationToken::new(),
        }
    }

    /// The notification sink that was registered with the Begin call.
    pub fn callback(&self) -> (callback: u64)
        ensures
            callback == self@.callback,
    {
        self.callback
    }

    /// Whether the outcome was stored.
    pub fn is_completed(&self) -> (b: bool)
        ensures
            b == self@.is_completed(),
    {
        !self.outcome.slot_is_empty()
    }

    /// Whether the operation completed inside the Begin call. It never does:
    /// the operation always runs as a task of its own.
    pub fn completed_synchronously(&self) -> (b: bool)
        ensures
            !b,
    {
        false
    }

    /// Whether the operation was cancelled from outside.
    pub fn is_cancelled(&self) -> (b: bool)
        ensures
            b == self@.token.cancelled,
    {
        self.token.is_cancelled()
    }

    /// An awaitable for the cancellation of this operation.
    pub fn cancelled(&self) -> (fut: CancelledFuture)
        ensures
            fut.is_resolved() == self@.token.cancelled,
    {
        self.token.cancelled()
    }

    /// Polls `fut` for the cancellation of this operation.
    pub fn poll_cancelled(&mut self, fut: &mut CancelledFuture, waker: W) -> (r: Poll<()>)
        ensures
            final(self)@ == (ContextState { token: old(self)@.token.poll(waker), ..old(self)@ }),
            r == (if old(self)@.token.cancelled { Poll::Ready(()) } else { Poll::Pending }),
            final(fut).is_resolved() == (old(fut).is_resolved() || old(self)@.token.cancelled),
    {
        fut.poll(&mut self.token, waker)
    }

    /// Cancels the operation from outside. The result holds the wake-handles
    /// of the tasks that await the cancellation; the caller wakes them.
    /// A stored outcome stays where it is.
    pub fn cancel(&mut self) -> (woken: Vec<W>)
        ensures
            final(self)@ == old(self)@.cancel(),
            woken@ == old(self)@.token.woken(),
    {
        self.token.cancel()
    }

    /// The task is gone without an outcome. The wake-handle of the task that
    /// waits for the result comes back, which the caller wakes; every claim
    /// from now on gives `Cancelled`. After an outcome was stored nothing
    /// changes.
    pub fn abandon(&mut self) -> (woken: Option<W>)
        ensures
            final(self)@ == old(self)@.abandon(),
            woken == old(self)@.outcome.close_wakes(),
    {
        self.outcome.close()
    }

    /// The task stores the outcome of the operation. The first call stores
    /// it and says whom to notify; any further call is rejected with
    /// `CallbackMisuse` and leaves the stored outcome untouched.
    pub fn complete(&mut self, outcome: Result<T, i32>) -> (r: Result<Notification<W>, BridgeError>)
        ensures
            final(self)@ == old(self)@.complete(outcome),
            r == old(self)@.completed(),
    {
        match self.outcome.send(outcome) {
            Ok(waiter) => Ok(Notification { callback: self.callback, waiter }),
            Err(e) => Err(e),
        }
    }

    /// Claims the outcome without waiting. A stored payload is returned once;
    /// a stored failure code comes back as `OperationFailed`. An outcome that
    /// was claimed before gives `AlreadyClaimed`. While nothing is stored the
    /// claim gives `Cancelled` if the operation was cancelled or its task is
    /// gone, and `NotReady` if not.
    pub fn result(&mut self) -> (r: Result<T, BridgeError>)
        ensures
            final(self)@ == old(self)@.claim(),
            r == old(self)@.claimed(),
    {
        let cancelled = self.token.is_cancelled();
        map_claim(self.outcome.try_recv(), cancelled)
    }

    /// Waits for the outcome: while nothing is stored, `waker` is kept and the
    /// poll is pending; otherwise the poll claims as `result` does.
    pub fn poll_result(&mut self, waker: W) -> (r: Poll<Result<T, BridgeError>>)
        ensures
            final(self)@ == old(self)@.poll_result(waker),
            r == old(self)@.polled_result(),
    {
        match self.outcome.poll(waker) {
            Poll::Pending => Poll::Pending,
            Poll::Ready(Ok(Ok(payload))) => Poll::Ready(Ok(payload)),
            Poll::Ready(Ok(Err(code))) => Poll::Ready(Err(BridgeError::OperationFailed(code))),
            Poll::Ready(Err(e)) => Poll::Ready(Err(e)),
        }
    }
}

/// Turns what the outcome channel gave into what a claim reports.
fn map_claim<T>(raw: Result<Result<T, i32>, BridgeError>, cancelled: bool) -> (r: Result<
    T,
    BridgeError,
>)
    requires
        raw is Err ==> raw->Err_0 == BridgeError::NotReady || raw->Err_0
            == BridgeError::AlreadyClaimed || raw->Err_0 == BridgeError::Cancelled,
    ensures
        r == (match raw {
            Ok(Ok(payload)) => Ok::<T, BridgeError>(payload),
            Ok(Err(code)) => Err(BridgeError::OperationFailed(code)),
            Err(BridgeError::NotReady) => if cancelled {
                Err(BridgeError::Cancelled)
            } else {
                Err(BridgeError::NotReady)
            },
            Err(BridgeError::Cancelled) => Err(BridgeError::Cancelled),
            Err(_) => Err(BridgeError::AlreadyClaimed),
        }),
{
    match raw {
        Ok(Ok(payload)) => Ok(payload),
        Ok(Err(code)) => Err(BridgeError::OperationFailed(code)),
        Err(BridgeError::NotReady) => {
            if cancelled {
                Err(BridgeError::Cancelled)
            } else {
                Err(BridgeError::NotReady)
            }
        },
        Err(BridgeError::Cancelled) => Err(BridgeError::Cancelled),
        Err(_) => Err(BridgeError::AlreadyClaimed),
    }
}

/// Every transition of a well-formed context leaves it well-formed.
pub proof fn lemma_context_keeps_wf<T, W>(c: ContextState<T, W>, outcome: Result<T, i32>, waker: W)
    requires
        c.wf(),
    ensures
        ContextState::<T, W>::fresh(c.callback).wf(),
        c.complete(outcome).wf(),
        c.cancel().wf(),
        c.abandon().wf(),
        c.claim().wf(),
        c.poll_result(waker).wf(),
{
}

/// A claim before the outcome is stored never succeeds, and changes nothing:
/// it reports `NotReady`, or `Cancelled` once the operation was cancelled,
/// and the wait path stays pending.
pub proof fn lemma_claim_before_completion<T, W>(c: ContextState<T, W>)
    requires
        !c.is_completed(),
        !c.is_abandoned(),
    ensures
        c.claimed() is Err,
        c.claimed() == (if c.token.cancelled {
            Err::<T, BridgeError>(BridgeError::Cancelled)
        } else {
            Err::<T, BridgeError>(BridgeError::NotReady)
        }),
        c.claim() == c,
        c.polled_result() == Poll::<Result<T, BridgeError>>::Pending,
{
}

/// After the task stored a payload, the first claim returns exactly that
/// payload and every later claim reports `AlreadyClaimed`, on either path.
pub proof fn lemma_claim_after_completion<T, W>(c: ContextState<T, W>, payload: T, waker: W)
    requires
        !c.is_completed(),
        !c.is_abandoned(),
    ensures
        c.complete(Ok(payload)).claimed() == Ok::<T, BridgeError>(payload),
        c.complete(Ok(payload)).polled_result() == Poll::Ready(Ok::<T, BridgeError>(payload)),
        c.complete(Ok(payload)).claim().claimed() == Err::<T, BridgeError>(
            BridgeError::AlreadyClaimed,
        ),
        c.complete(Ok(payload)).claim().claim() == c.complete(Ok(payload)).claim(),
        c.complete(Ok(payload)).poll_result(waker).claimed() == Err::<T, BridgeError>(
            BridgeError::AlreadyClaimed,
        ),
        c.complete(Ok(payload)).poll_result(waker).polled_result() == Poll::Ready(
            Err::<T, BridgeError>(BridgeError::AlreadyClaimed),
        ),
{
}

/// A failure of the foreign operation reaches the claim with its code
/// unchanged.
pub proof fn lemma_failure_code_is_passed_on<T, W>(c: ContextState<T, W>, code: i32)
    requires
        !c.is_completed(),
        !c.is_abandoned(),
    ensures
        c.complete(Err(code)).claimed() == Err::<T, BridgeError>(
            BridgeError::OperationFailed(code),
        ),
{
}

/// Exactly one completion is accepted per operation: the first one names the
/// sink to notify, every further one is rejected and changes nothing.
pub proof fn lemma_one_notification_per_operation<T, W>(
    c: ContextState<T, W>,
    first: Result<T, i32>,
    second: Result<T, i32>,
)
    requires
        !c.is_completed(),
        !c.is_abandoned(),
    ensures
        c.completed() == Ok::<Notification<W>, BridgeError>(
            Notification { callback: c.callback, waiter: c.outcome.waiter },
        ),
        c.complete(first).completed() == Err::<Notification<W>, BridgeError>(
            BridgeError::CallbackMisuse,
        ),
        c.complete(first).complete(second) == c.complete(first),
        c.complete(first).claim().completed() == Err::<Notification<W>, BridgeError>(
            BridgeError::CallbackMisuse,
        ),
{
}

/// A cancellation before the outcome is stored makes the claim report
/// `Cancelled` and keeps the wait path pending; the outcome that the task
/// stores afterwards is still delivered, once.
pub proof fn lemma_cancel_before_completion<T, W>(c: ContextState<T, W>, outcome: Result<T, i32>)
    requires
        !c.is_completed(),
        !c.is_abandoned(),
    ensures
        c.cancel().claimed() == Err::<T, BridgeError>(BridgeError::Cancelled),
        c.cancel().claim() == c.cancel(),
        c.cancel().polled_result() == Poll::<Result<T, BridgeError>>::Pending,
        c.cancel().complete(outcome).claimed() == c.complete(outcome).claimed(),
        c.cancel().complete(outcome).claim().claimed() == Err::<T, BridgeError>(
            BridgeError::AlreadyClaimed,
        ),
{
}

/// A task that is gone without an outcome does not leave the End side
/// waiting: the claim gives `Cancelled` on either path, and an outcome that
/// is offered afterwards is rejected.
pub proof fn lemma_abandoned_operation<T, W>(c: ContextState<T, W>, late: Result<T, i32>)
    requires
        !c.is_completed(),
        !c.is_abandoned(),
    ensures
        c.abandon().claimed() == Err::<T, BridgeError>(BridgeError::Cancelled),
        c.abandon().polled_result() == Poll::Ready(Err::<T, BridgeError>(BridgeError::Cancelled)),
        c.abandon().completed() == Err::<Notification<W>, BridgeError>(BridgeError::CallbackMisuse),
        c.abandon().complete(late) == c.abandon(),
{
}

} // verus!
