//! Lifecycle core of a pool manager for synchronous, single-threaded SQLite
//! connections shared by asynchronous callers.
//!
//! Each pooled connection is pinned to a dedicated execution context that runs
//! its blocking calls one at a time; the manager constructs connections on
//! demand and, before a connection is reused, runs a health-check protocol
//! that echoes a fresh counter value through the database. A connection whose
//! execution context terminated abnormally is poisoned for good and refused.
//!
//! This crate holds the decision core of that design: the manager state, the
//! poison lifecycle of a pooled object, and the recycle protocol, each with a
//! proved contract. The surrounding plumbing (the async runtime, the worker
//! thread, the database driver) reports its outcomes as plain events, and the
//! functions here decide what follows from them.

pub mod connection;
pub mod errors;
pub mod laws;
pub mod manager;
