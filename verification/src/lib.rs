//! Bridge between a callback-driven Begin/End completion protocol and
//! polled tasks with cooperative cancellation.
//!
//! Every component is a state value with explicit transitions. A transition
//! of a state that tasks share (token, channel, operation context) hands the
//! outside work that it calls for (waking a task, notifying a completion
//! sink) back to the caller as its result, and runs no foreign code. Where a
//! function calls code of the service or of the user (the mapping function of
//! a future, the abort of a service instance), the work is also offered in
//! halves, so that a host that shares the state makes the call after it has
//! let the state go.

pub mod debug;
pub mod error;
pub mod kvstore;
pub mod runtime;
pub mod strings;
pub mod sync;
pub mod types;
