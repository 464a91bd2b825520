//! Single-owner arbitration of group-scoped events.
//!
//! Several client connections may observe the same group. The first client
//! seen for a group becomes its owner for the lifetime of the registry; the
//! events that other clients observe for that group are suppressed.
pub mod decision;
pub mod history;
pub mod registry;
