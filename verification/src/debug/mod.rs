//! Aids for debugging a service.

pub mod health_log;

use vstd::prelude::*;

verus! {

/// Seconds between two looks for a debugger.
pub const DEBUGGER_POLL_SECONDS: u64 = 5;

/// What the wait for a debugger does next.
#[derive(Debug, Clone, Copy, PartialEq, Eq, Structural)]
pub enum DebuggerWait {
    /// A debugger is attached: the wait is over.
    Found,
    /// No debugger yet: look again after so many seconds.
    RetryAfter(u64),
}

/// One step of the wait for a debugger, given whether one is attached now.
/// On a platform that cannot tell, the caller passes `true` and the wait ends
/// at once.
pub fn wait_for_debugger(debugger_present: bool) -> (step: DebuggerWait)
    ensures
        step == (if debugger_present {
            DebuggerWait::Found
        } else {
            DebuggerWait::RetryAfter(DEBUGGER_POLL_SECONDS)
        }),
{
    if debugger_present {
        DebuggerWait::Found
    } else {
        DebuggerWait::RetryAfter(DEBUGGER_POLL_SECONDS)
    }
}

} // verus!
