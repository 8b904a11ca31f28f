//! Synchronisation primitives of the bridge.

pub mod bridge_context;
pub mod channel;
pub mod fut;
pub mod slot;
pub mod token;
