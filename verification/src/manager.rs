//! The connection manager: construction of pooled connections and the recycle
//! health-check protocol.
//!
//! The manager implements the two-operation capability the pooling engine
//! needs — make a new pooled object, and validate a returned one — over a
//! configured database path, a chosen runtime, and a monotonically increasing
//! recycle counter. The slow outside steps (opening the database, running the
//! round-trip query on the dedicated execution context) happen elsewhere and
//! report back as plain events; the functions here make every decision and
//! carry every piece of manager state.

use vstd::prelude::*;

use crate::connection::ConnectionObject;
use crate::connection::InteractOutcome;
use crate::connection::WorkerCompletion;
use crate::connection::poisoned_after_interact;
use crate::errors::CreateError;
use crate::errors::RecycleError;

verus! {

/// Immutable configuration of a manager: at minimum, the filesystem path of
/// the database file that new connections open.
pub struct Config {
    /// Path of the database file, handed to the Connect Strategy on every
    /// `create`.
    pub path: String,
}

/// Which asynchronous runtime supplies the dedicated execution contexts that
/// run blocking connection work.
#[derive(Clone, Copy, Debug, PartialEq, Eq, Structural)]
pub enum RuntimeMode {
    /// The Tokio runtime.
    Tokio1,
    /// The async-std runtime.
    AsyncStd1,
}

/// How the attempt to establish a new raw connection ended. The open runs on
/// the new connection's dedicated execution context, never on the caller's
/// thread, and its outcome comes back as one of these events.
#[derive(Debug, PartialEq, Eq)]
pub enum ConnectOutcome {
    /// The Connect Strategy opened the database.
    Opened,
    /// The Connect Strategy failed, with the driver's message.
    OpenFailed(String),
    /// The runtime could not allocate a dedicated execution context, so the
    /// Connect Strategy was never run.
    NoContext(String),
}

/// The manager's first decision on a recycle request.
#[derive(Debug, PartialEq, Eq)]
pub enum RecycleDecision {
    /// The object is poisoned: refuse it outright, issue no query.
    Reject,
    /// The object looks healthy so far: issue the round-trip probe that asks
    /// the database to echo back this counter value.
    Probe(u64),
}

/// Manager of pooled connections: creates them on demand and health-checks
/// them before reuse.
pub struct Manager {
    config: Config,
    recycle_count: u64,
    runtime: RuntimeMode,
}

/// The recycle counter a manager is left with after one recycle attempt on
/// `conn`: a poisoned object is refused before the counter is touched; any
/// other attempt advances the counter by exactly one, whatever its outcome.
pub open spec fn count_after_recycle(m: Manager, conn: ConnectionObject) -> int {
    if conn.is_poisoned_spec() {
        m.recycle_count_spec() as int
    } else {
        m.recycle_count_spec() + 1
    }
}

/// The result of one recycle attempt on `conn` by manager `m`, when the
/// dedicated execution context reports `work` for the probe query: a poisoned
/// object is terminally refused with no query issued; otherwise the probe
/// must run and echo back exactly the counter value that was sent.
pub open spec fn recycle_result_spec(
    m: Manager,
    conn: ConnectionObject,
    work: WorkerCompletion,
) -> Result<(), RecycleError> {
    if conn.is_poisoned_spec() {
        Err(RecycleError::Poisoned)
    } else {
        match work {
            WorkerCompletion::Finished(echoed) => if echoed == m.recycle_count_spec() + 1 {
                Ok(())
            } else {
                Err(RecycleError::CountMismatch)
            },
            WorkerCompletion::Failed(msg) => Err(RecycleError::Query(msg)),
            WorkerCompletion::Terminated => Err(RecycleError::Bridge),
        }
    }
}

impl Manager {
    /// The configured database path.
    pub closed spec fn path_spec(&self) -> Seq<char> {
        self.config.path@
    }

    /// The recycle counter: zero at construction, advanced by exactly one on
    /// every recycle attempt that reaches the health check.
    pub closed spec fn recycle_count_spec(&self) -> u64 {
        self.recycle_count
    }

    /// The runtime the manager was configured with.
    pub closed spec fn runtime_spec(&self) -> RuntimeMode {
        self.runtime
    }

    /// Creates a new manager for the given configuration, backed by the given
    /// runtime. The recycle counter starts at zero.
    pub fn from_config(config: &Config, runtime: RuntimeMode) -> (m: Self)
        ensures
            m.path_spec() == config.path@,
            m.recycle_count_spec() == 0,
            m.runtime_spec() == runtime,
    {
        Manager {
            config: Config { path: config.path.clone() },
            recycle_count: 0,
            runtime,
        }
    }

    /// The configured database path, as handed to the Connect Strategy.
    pub fn path(&self) -> (p: &String)
        ensures
            p@ == self.path_spec(),
    {
        &self.config.path
    }

    /// The current value of the recycle counter.
    pub fn recycle_count(&self) -> (c: u64)
        ensures
            c == self.recycle_count_spec(),
    {
        self.recycle_count
    }

    /// The runtime the manager was configured with.
    pub fn runtime(&self) -> (r: RuntimeMode)
        ensures
            r == self.runtime_spec(),
    {
        self.runtime
    }

    /// Concludes one `create` call, given how the connection attempt ended.
    ///
    /// On success the new pooled object is handed out not poisoned: its
    /// dedicated execution context is freshly allocated and healthy. An open
    /// failure surfaces the Connect Strategy's message verbatim, a runtime
    /// failure its own; neither is retried, and no object is produced.
    pub fn create(&self, attempt: ConnectOutcome) -> (r: Result<ConnectionObject, CreateError>)
        ensures
            attempt is Opened ==> (r matches Ok(o) && !o.is_poisoned_spec()),
            attempt matches ConnectOutcome::OpenFailed(msg) ==> r == Err::<
                ConnectionObject,
                CreateError,
            >(CreateError::Open(msg)),
            attempt matches ConnectOutcome::NoContext(msg) ==> r == Err::<
                ConnectionObject,
                CreateError,
            >(CreateError::Runtime(msg)),
    {
        match attempt {
            ConnectOutcome::Opened => Ok(ConnectionObject::new()),
            ConnectOutcome::OpenFailed(msg) => Err(CreateError::Open(msg)),
            ConnectOutcome::NoContext(msg) => Err(CreateError::Runtime(msg)),
        }
    }

    /// The manager's first step on a recycle request: refuse a poisoned
    /// object outright, with the counter untouched and no query issued;
    /// otherwise fetch-and-increment the recycle counter and direct the
    /// caller to probe with the fresh value, which no other recycle attempt
    /// on this manager can observe.
    pub fn begin_recycle(&mut self, conn: &ConnectionObject) -> (d: RecycleDecision)
        requires
            old(self).recycle_count_spec() < u64::MAX,
        ensures
            final(self).path_spec() == old(self).path_spec(),
            final(self).runtime_spec() == old(self).runtime_spec(),
            final(self).recycle_count_spec() == count_after_recycle(*old(self), *conn),
            conn.is_poisoned_spec() ==> d == RecycleDecision::Reject,
            !conn.is_poisoned_spec() ==> d == RecycleDecision::Probe(
                (old(self).recycle_count_spec() + 1) as u64,
            ),
    {
        if conn.is_poisoned() {
            RecycleDecision::Reject
        } else {
            let n = self.recycle_count + 1;
            self.recycle_count = n;
            RecycleDecision::Probe(n)
        }
    }

    /// Runs the whole recycle health-check protocol for one returned object,
    /// given how the dedicated execution context reports the probe query.
    ///
    /// A poisoned object is refused with the terminal poisoned error before
    /// any query is issued, and nothing changes. Otherwise the counter
    /// advances by exactly one, the probe is submitted through `interact`,
    /// and the result is exactly `recycle_result_spec`: success only when
    /// the query echoed back the fresh counter value.
    pub fn recycle(&mut self, conn: &mut ConnectionObject, work: WorkerCompletion) -> (r: Result<
        (),
        RecycleError,
    >)
        requires
            old(self).recycle_count_spec() < u64::MAX,
        ensures
            r == recycle_result_spec(*old(self), *old(conn), work),
            final(self).recycle_count_spec() == count_after_recycle(*old(self), *old(conn)),
            final(self).path_spec() == old(self).path_spec(),
            final(self).runtime_spec() == old(self).runtime_spec(),
            old(conn).is_poisoned_spec() ==> *final(conn) == *old(conn),
            final(conn).is_poisoned_spec() == poisoned_after_interact(*old(conn), work),
    {
        match self.begin_recycle(conn) {
            RecycleDecision::Reject => Err(RecycleError::Poisoned),
            RecycleDecision::Probe(n) => {
                let outcome = conn.interact(work);
                decide_probe(n, outcome)
            },
        }
    }
}

/// Turns the outcome of the round-trip probe issued with counter value `n`
/// into the accept-or-reject decision: a bridge failure and a query failure each
/// surface as their own error, and a completed query is trusted only if it
/// echoed back exactly `n`.
pub fn decide_probe(n: u64, outcome: InteractOutcome) -> (r: Result<(), RecycleError>)
    ensures
        outcome matches InteractOutcome::Completed(echoed) && echoed == n ==> r == Ok::<
            (),
            RecycleError,
        >(()),
        outcome matches InteractOutcome::Completed(echoed) && echoed != n ==> r == Err::<
            (),
            RecycleError,
        >(RecycleError::CountMismatch),
        outcome matches InteractOutcome::CallFailed(msg) ==> r == Err::<(), RecycleError>(
            RecycleError::Query(msg),
        ),
        outcome is BridgeFailure ==> r == Err::<(), RecycleError>(RecycleError::Bridge),
{
    match outcome {
        InteractOutcome::Completed(echoed) => if echoed == n {
            Ok(())
        } else {
            Err(RecycleError::CountMismatch)
        },
        InteractOutcome::CallFailed(msg) => Err(RecycleError::Query(msg)),
        InteractOutcome::BridgeFailure => Err(RecycleError::Bridge),
    }
}

} // verus!

