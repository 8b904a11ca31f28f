//! Plain values that cross the boundary to the foreign runtime.

pub mod health;
pub mod node;
pub mod runtime;
pub mod security_credentials;
