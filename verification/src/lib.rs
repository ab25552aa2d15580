//! Fault-injection engine for a deterministic fuzz-testing harness.
//!
//! Every outbound message of the system under test can be delayed,
//! duplicated, dropped, redirected around a simulated crash/restart, or
//! blocked by a simulated network partition; every decision is recorded in
//! an append-only log keyed by a globally unique, strictly increasing
//! sequence id.
//!
//! This crate holds the decision core: the partition (connectivity) state,
//! the sequence generator, the log bookkeeping, and the scheduling rules
//! that turn a fault event into timed delivery attempts.  The asynchronous
//! shell around it (timers, the transport, the persistent store) drives the
//! core and carries out the actions it returns.

pub mod connectivity;
pub mod driver;
pub mod event;
pub mod laws;
pub mod scheduler;
