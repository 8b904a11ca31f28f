//! Consume-once slot: a container that yields its content at most once.

use vstd::prelude::*;
use crate::error::BridgeError;

verus! {

/// A slot that is written at most once and read at most once.
pub enum OnceSlot<T> {
    /// Nothing was written yet.
    Empty,
    /// The content waits to be taken.
    Full(T),
    /// The content was taken.
    Taken,
}

impl<T> OnceSlot<T> {
    /// An empty slot.
    pub fn new() -> (slot: Self)
        ensures
            slot == OnceSlot::<T>::Empty,
    {
        OnceSlot::Empty
    }

    /// A slot that holds `value`.
    pub fn full(value: T) -> (slot: Self)
        ensures
            slot == OnceSlot::Full(value),
    {
        OnceSlot::Full(value)
    }

    /// Whether nothing was written yet.
    pub fn is_empty(&self) -> (b: bool)
        ensures
            b == (*self is Empty),
    {
        match self {
            OnceSlot::Empty => true,
            _ => false,
        }
    }

    /// Whether the content waits to be taken.
    pub fn is_full(&self) -> (b: bool)
        ensures
            b == (*self is Full),
    {
        match self {
            OnceSlot::Full(_) => true,
            _ => false,
        }
    }

    /// Whether the content was taken.
    pub fn is_taken(&self) -> (b: bool)
        ensures
            b == (*self is Taken),
    {
        match self {
            OnceSlot::Taken => true,
            _ => false,
        }
    }

    /// The slot after a write of `value`: only an empty slot accepts it.
    pub open spec fn spec_fill(self, value: T) -> Self {
        if self is Empty {
            OnceSlot::Full(value)
        } else {
            self
        }
    }

    /// The slot after a read: only a full slot changes.
    pub open spec fn spec_take(self) -> Self {
        if self is Full {
            OnceSlot::Taken
        } else {
            self
        }
    }

    /// What a read reports.
    pub open spec fn spec_taken(self) -> Result<T, BridgeError> {
        match self {
            OnceSlot::Empty => Err(BridgeError::NotReady),
            OnceSlot::Full(value) => Ok(value),
            OnceSlot::Taken => Err(BridgeError::AlreadyClaimed),
        }
    }

    /// Writes `value` into an empty slot. A slot that was written before
    /// rejects the write with `CallbackMisuse` and keeps what it has.
    pub fn fill(&mut self, value: T) -> (r: Result<(), BridgeError>)
        ensures
            *final(self) == old(self).spec_fill(value),
            r == (if *old(self) is Empty {
                Ok::<(), BridgeError>(())
            } else {
                Err::<(), BridgeError>(BridgeError::CallbackMisuse)
            }),
    {
        if self.is_empty() {
            *self = OnceSlot::Full(value);
            Ok(())
        } else {
            Err(BridgeError::CallbackMisuse)
        }
    }

    /// Takes the content out. An empty slot reports `NotReady`, a slot that
    /// was read before reports `AlreadyClaimed`; neither changes.
    pub fn take(&mut self) -> (r: Result<T, BridgeError>)
        ensures
            *final(self) == old(self).spec_take(),
            r == old(self).spec_taken(),
    {
        let mut content: OnceSlot<T> = OnceSlot::Taken;
        std::mem::swap(self, &mut content);
        match content {
            OnceSlot::Full(value) => Ok(value),
            OnceSlot::Empty => {
                *self = OnceSlot::Empty;
                Err(BridgeError::NotReady)
            },
            OnceSlot::Taken => Err(BridgeError::AlreadyClaimed),
        }
    }
}

/// A slot yields its content at most once: whatever the slot holds, a read
/// that follows a read reports an error and leaves the slot as it is.
pub proof fn lemma_slot_yields_at_most_once<T>(slot: OnceSlot<T>)
    ensures
        slot.spec_take().spec_taken() is Err,
        slot.spec_take().spec_take() == slot.spec_take(),
        slot is Full ==> slot.spec_take().spec_taken() == Err::<T, BridgeError>(
            BridgeError::AlreadyClaimed,
        ),
{
}

/// A slot accepts at most one write: after any write the slot is no longer
/// empty, and a further write changes nothing.
pub proof fn lemma_slot_accepts_one_write<T>(slot: OnceSlot<T>, first: T, second: T)
    ensures
        !(slot.spec_fill(first) is Empty),
        slot.spec_fill(first).spec_fill(second) == slot.spec_fill(first),
{
}

} // verus!
