//! A verified boundary layer for an authorization-policy engine that is
//! driven by a foreign host through a linear-memory protocol: an allocation
//! table for the byte buffers the two sides exchange, a marshaling layer
//! that moves UTF-8 text through those buffers, an engine holding the
//! current policy set and entity store, and the boundary surface that
//! composes them.

pub mod bridge;
pub mod engine;
pub mod json;
pub mod marshal;
pub mod memory;
pub mod policy_api;
pub mod validation;
