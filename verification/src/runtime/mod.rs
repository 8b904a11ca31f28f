//! Bridges between the foreign runtime and a service implementation.

pub mod lifecycle;
pub mod stateless;
pub mod stateless_bridge;
