//! Errors of the bridge.

use vstd::prelude::*;

verus! {

/// What a bridged operation can report instead of a payload.
#[derive(Debug, Clone, Copy, PartialEq, Eq, Structural)]
pub enum BridgeError {
    /// The foreign operation itself failed; the code is passed on unchanged.
    OperationFailed(i32),
    /// The result was claimed before.
    AlreadyClaimed,
    /// A completion was signalled a second time, or a context was used after
    /// its result had been delivered.
    CallbackMisuse,
    /// The operation was cancelled before it produced a result.
    Cancelled,
    /// The result is not there yet.
    NotReady,
}

impl BridgeError {
    /// A short description of the error.
    pub fn message(&self) -> (text: String)
        ensures
            text@ == (match *self {
                BridgeError::OperationFailed(_) => "operation failed"@,
                BridgeError::AlreadyClaimed => "result already claimed"@,
                BridgeError::CallbackMisuse => "completion signalled twice"@,
                BridgeError::Cancelled => "operation cancelled"@,
                BridgeError::NotReady => "operation not complete"@,
            }),
    {
        match self {
            BridgeError::OperationFailed(_) => "operation failed".to_string(),
            BridgeError::AlreadyClaimed => "result already claimed".to_string(),
            BridgeError::CallbackMisuse => "completion signalled twice".to_string(),
            BridgeError::Cancelled => "operation cancelled".to_string(),
            BridgeError::NotReady => "operation not complete".to_string(),
        }
    }
}

} // verus!
