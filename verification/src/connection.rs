//! The pooled connection object and its poison lifecycle.
//!
//! A pooled connection owns a raw blocking connection pinned to one dedicated
//! execution context; every blocking call funnels through that context, one at
//! a time, in submission order. The context's fate is what this module tracks:
//! once it terminates abnormally the object is poisoned, permanently, and must
//! never again be handed to a caller as healthy.
//!
//! The blocking work itself runs outside this crate. Its outcome comes back as
//! a [`WorkerCompletion`] event, and [`ConnectionObject::interact`] decides
//! what the asynchronous caller sees and how the poison state moves.

use vstd::prelude::*;

verus! {

/// How one submitted blocking call ended on the dedicated execution context.
#[derive(Debug, PartialEq, Eq)]
pub enum WorkerCompletion {
    /// The call ran to completion and produced this value.
    Finished(u64),
    /// The call ran but reported a failure, with the underlying message.
    Failed(String),
    /// The execution context terminated abnormally before the call could
    /// complete (for instance, the call brought it down mid-flight).
    Terminated,
}

/// What an `interact` submission returns to the asynchronous caller.
#[derive(Debug, PartialEq, Eq)]
pub enum InteractOutcome {
    /// The blocking call ran and produced this value.
    Completed(u64),
    /// The blocking call itself failed, with the underlying message.
    CallFailed(String),
    /// The execution context could not run the call at all: it had already
    /// terminated, or terminated while the call was in flight.
    BridgeFailure,
}

/// One pooled connection as the manager sees it: the handle to a raw blocking
/// connection confined to its dedicated execution context, together with the
/// permanent poison flag.
///
/// Invariant kept by every operation here: the poison flag is set at most
/// once and never cleared. A poisoned object accepts no further blocking
/// calls productively and is refused at recycle time.
#[derive(Debug, PartialEq, Eq)]
pub struct ConnectionObject {
    poisoned: bool,
}

/// The poison state a connection is left in after the dedicated execution
/// context reports `work` for a submitted call: abnormal termination poisons
/// the object, and an object once poisoned stays poisoned.
pub open spec fn poisoned_after_interact(conn: ConnectionObject, work: WorkerCompletion) -> bool {
    conn.is_poisoned_spec() || work is Terminated
}

/// What an `interact` submission returns when the dedicated execution context
/// reports `work`: a poisoned object never runs the call, and an abnormal
/// termination surfaces as a bridge failure, distinct from a failure of the
/// call itself.
pub open spec fn interact_result_spec(conn: ConnectionObject, work: WorkerCompletion) -> InteractOutcome {
    if conn.is_poisoned_spec() {
        InteractOutcome::BridgeFailure
    } else {
        match work {
            WorkerCompletion::Finished(v) => InteractOutcome::Completed(v),
            WorkerCompletion::Failed(msg) => InteractOutcome::CallFailed(msg),
            WorkerCompletion::Terminated => InteractOutcome::BridgeFailure,
        }
    }
}

impl ConnectionObject {
    /// Whether the dedicated execution context of this connection has
    /// terminated abnormally, leaving the object permanently unusable.
    pub closed spec fn is_poisoned_spec(&self) -> bool {
        self.poisoned
    }

    /// A freshly created pooled connection: its dedicated execution context
    /// is newly allocated and healthy, so the object starts out not poisoned.
    pub fn new() -> (o: Self)
        ensures
            !o.is_poisoned_spec(),
    {
        ConnectionObject { poisoned: false }
    }

    /// Cheap, non-blocking query of the poison flag.
    pub fn is_poisoned(&self) -> (b: bool)
        ensures
            b == self.is_poisoned_spec(),
    {
        self.poisoned
    }

    /// Record that the dedicated execution context of this connection was
    /// observed to have terminated abnormally. The flag is permanent: nothing
    /// in this crate clears it.
    pub fn mark_poisoned(&mut self)
        ensures
            final(self).is_poisoned_spec(),
    {
        self.poisoned = true;
    }

    /// Resolve one `interact` submission, given how the dedicated execution
    /// context reported the submitted blocking call.
    ///
    /// A poisoned object refuses the call outright with a bridge failure and
    /// does not change. Otherwise the caller sees the call's own outcome, and
    /// an abnormal termination of the context poisons the object permanently
    /// while surfacing as a bridge failure.
    pub fn interact(&mut self, work: WorkerCompletion) -> (r: InteractOutcome)
        ensures
            r == interact_result_spec(*old(self), work),
            final(self).is_poisoned_spec() == poisoned_after_interact(*old(self), work),
    {
        if self.poisoned {
            return InteractOutcome::BridgeFailure;
        }
        match work {
            WorkerCompletion::Finished(v) => InteractOutcome::Completed(v),
            WorkerCompletion::Failed(msg) => InteractOutcome::CallFailed(msg),
            WorkerCompletion::Terminated => {
                self.poisoned = true;
                InteractOutcome::BridgeFailure
            },
        }
    }
}

} // verus!
