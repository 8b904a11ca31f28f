//! Lifecycle of a service instance or replica.

use vstd::prelude::*;

verus! {

/// Where a service instance stands in its life.
#[derive(Debug, Clone, Copy, PartialEq, Eq, Structural)]
pub enum LifecycleState {
    Created,
    Opening,
    Open,
    Closing,
    Closed,
    Aborting,
    Aborted,
}

/// What happens to a service instance.
#[derive(Debug, Clone, Copy, PartialEq, Eq, Structural)]
pub enum LifecycleEvent {
    /// An open operation begins.
    BeginOpen,
    /// The open operation was claimed with success.
    Opened,
    /// A close operation begins.
    BeginClose,
    /// The close operation was claimed with success.
    Closed,
    /// An abort is requested.
    Abort,
    /// The service implementation has returned from the abort.
    AbortDone,
}

/// The role of a replica.
#[derive(Debug, Clone, Copy, PartialEq, Eq, Structural)]
pub enum ReplicaRole {
    Unknown,
    NoRole,
    Primary,
    IdleSecondary,
    ActiveSecondary,
}

impl LifecycleState {
    /// A closed or aborted instance takes no further part.
    pub open spec fn is_terminal(self) -> bool {
        self == LifecycleState::Closed || self == LifecycleState::Aborted
    }

    /// The state that `event` leads to, if the event is allowed here.
    pub open spec fn next(self, event: LifecycleEvent) -> Option<LifecycleState> {
        match (self, event) {
            (LifecycleState::Created, LifecycleEvent::BeginOpen) => Some(LifecycleState::Opening),
            (LifecycleState::Opening, LifecycleEvent::Opened) => Some(LifecycleState::Open),
            (LifecycleState::Open, LifecycleEvent::BeginClose) => Some(LifecycleState::Closing),
            (LifecycleState::Closing, LifecycleEvent::Closed) => Some(LifecycleState::Closed),
            (LifecycleState::Aborting, LifecycleEvent::AbortDone) => Some(LifecycleState::Aborted),
            (_, LifecycleEvent::Abort) => if self.is_terminal() {
                None
            } else {
                Some(LifecycleState::Aborting)
            },
            _ => None,
        }
    }

    /// Whether the state is terminal.
    pub fn terminal(self) -> (b: bool)
        ensures
            b == self.is_terminal(),
    {
        match self {
            LifecycleState::Closed => true,
            LifecycleState::Aborted => true,
            _ => false,
        }
    }

    /// The state that `event` leads to; `None` where the event is not
    /// allowed in this state.
    pub fn step(self, event: LifecycleEvent) -> (r: Option<LifecycleState>)
        ensures
            r == self.next(event),
    {
        match event {
            LifecycleEvent::BeginOpen => match self {
                LifecycleState::Created => Some(LifecycleState::Opening),
                _ => None,
            },
            LifecycleEvent::Opened => match self {
                LifecycleState::Opening => Some(LifecycleState::Open),
                _ => None,
            },
            LifecycleEvent::BeginClose => match self {
                LifecycleState::Open => Some(LifecycleState::Closing),
                _ => None,
            },
            LifecycleEvent::Closed => match self {
                LifecycleState::Closing => Some(LifecycleState::Closed),
                _ => None,
            },
            LifecycleEvent::AbortDone => match self {
                LifecycleState::Aborting => Some(LifecycleState::Aborted),
                _ => None,
            },
            LifecycleEvent::Abort => if self.terminal() {
                None
            } else {
                Some(LifecycleState::Aborting)
            },
        }
    }
}

/// Nothing leads out of a terminal state.
pub proof fn lemma_terminal_states_are_final(state: LifecycleState, event: LifecycleEvent)
    requires
        state.is_terminal(),
    ensures
        state.next(event) is None,
{
}

/// From every state that is not terminal an abort leads to `Aborting`, and
/// from there the end of the abort leads to `Aborted`.
pub proof fn lemma_abort_is_always_reachable(state: LifecycleState)
    requires
        !state.is_terminal(),
    ensures
        state.next(LifecycleEvent::Abort) == Some(LifecycleState::Aborting),
        LifecycleState::Aborting.next(LifecycleEvent::AbortDone) == Some(LifecycleState::Aborted),
{
}

/// The regular life runs from `Created` through `Opening`, `Open` and
/// `Closing` to `Closed`, and no state is entered out of this order.
pub proof fn lemma_regular_life()
    ensures
        LifecycleState::Created.next(LifecycleEvent::BeginOpen) == Some(LifecycleState::Opening),
        LifecycleState::Opening.next(LifecycleEvent::Opened) == Some(LifecycleState::Open),
        LifecycleState::Open.next(LifecycleEvent::BeginClose) == Some(LifecycleState::Closing),
        LifecycleState::Closing.next(LifecycleEvent::Closed) == Some(LifecycleState::Closed),
        forall|s: LifecycleState, e: LifecycleEvent|
            s.next(e) == Some(LifecycleState::Open) ==> s == LifecycleState::Opening,
        forall|s: LifecycleState, e: LifecycleEvent|
            s.next(e) == Some(LifecycleState::Closed) ==> s == LifecycleState::Closing,
        forall|s: LifecycleState, e: LifecycleEvent| s.next(e) != Some(LifecycleState::Created),
{
}

} // verus!
