//! Bounty task lifecycle: a creator posts a task with a locked amount, a
//! freelancer submits work, and the creator releases the payment.
//!
//! Caller authentication is performed by the host before any mutating
//! operation reaches this library; the operations here enforce the rules that
//! follow it (roles, state transitions, identifier allocation).
pub mod contract;
pub mod error;
pub mod laws;
pub mod principal;
pub mod store;
pub mod task;
