//! Error taxonomy of the manager.
//!
//! None of these errors is retried here: retry policy belongs to the pooling
//! engine or to the caller.

use vstd::prelude::*;

verus! {

/// Why `create` failed to produce a pooled connection.
#[derive(Debug, PartialEq, Eq)]
pub enum CreateError {
    /// The Connect Strategy could not open the database at the configured
    /// path. The driver's message is carried verbatim and never retried here.
    Open(String),
    /// The runtime could not allocate a dedicated execution context for the
    /// new connection.
    Runtime(String),
}

/// Why `recycle` refused to hand a connection out again.
#[derive(Debug, PartialEq, Eq)]
pub enum RecycleError {
    /// The connection's dedicated execution context terminated abnormally at
    /// some earlier point. Terminal: the object must be discarded, and no
    /// health-check query is issued for it.
    Poisoned,
    /// The execution context could not run the health-check call at all
    /// (for instance, it terminated while the call was in flight). Distinct
    /// from a failure of the query itself.
    Bridge,
    /// The health-check query ran but reported a failure; carries the
    /// underlying message.
    Query(String),
    /// The health-check query returned a value other than the counter value
    /// that was sent. Terminal: the connection cannot be trusted for reuse.
    CountMismatch,
}

} // verus!
