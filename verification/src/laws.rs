//! Laws of the manager, proved over the same spec functions that the
//! executable functions' contracts use.
//!
//! Each law here relates several operations — recycling after poisoning, the
//! uniqueness of the counter values that recycle attempts observe — and is
//! stated for every input the law allows, not for chosen values.

use vstd::prelude::*;

use crate::connection::ConnectionObject;
use crate::connection::WorkerCompletion;
use crate::connection::poisoned_after_interact;
use crate::errors::RecycleError;
use crate::manager::Manager;
use crate::manager::count_after_recycle;
use crate::manager::recycle_result_spec;

verus! {

/// The counter value that one recycle attempt on a healthy object observes,
/// begun while the manager's counter stands at `count_before`: the counter is
/// fetched-and-incremented, and the attempt owns the fresh value.
pub open spec fn probe_value(count_before: u64) -> int {
    count_before + 1
}

/// Law: a recycle attempt on a non-poisoned connection whose round trip
/// echoes back exactly the value that was sent succeeds, and the recycle
/// counter advances by exactly one.
pub proof fn lemma_healthy_recycle_succeeds(m: Manager, conn: ConnectionObject)
    requires
        !conn.is_poisoned_spec(),
        m.recycle_count_spec() < u64::MAX,
    ensures
        recycle_result_spec(
            m,
            conn,
            WorkerCompletion::Finished((m.recycle_count_spec() + 1) as u64),
        ) == Ok::<(), RecycleError>(()),
        count_after_recycle(m, conn) == m.recycle_count_spec() + 1,
{
}

/// Law: recycle attempts on one manager observe pairwise distinct counter
/// values. Each attempt owns the value fetched by its own increment, so the
/// attempt begun from the successor state observes a strictly larger value
/// than the one begun before it — in particular, two attempts interleaved in
/// either order from a counter at `k` observe exactly `k + 1` and `k + 2`,
/// never the same value twice.
pub proof fn lemma_probe_values_distinct(first: Manager, second: Manager)
    requires
        first.recycle_count_spec() < u64::MAX,
        second.recycle_count_spec() == first.recycle_count_spec() + 1,
    ensures
        probe_value(second.recycle_count_spec()) > probe_value(first.recycle_count_spec()),
        probe_value(second.recycle_count_spec()) != probe_value(first.recycle_count_spec()),
{
}

/// Law: once poisoned, always poisoned. Whatever the dedicated execution
/// context reports for any later submission, the object stays poisoned.
pub proof fn lemma_poison_is_permanent(conn: ConnectionObject, work: WorkerCompletion)
    requires
        conn.is_poisoned_spec(),
    ensures
        poisoned_after_interact(conn, work),
{
}

/// Law: a poisoned object is terminally refused. For every manager state and
/// every completion the execution context could ever report, recycle returns
/// the poisoned error and the counter does not move — the probe query is
/// never issued for a poisoned object.
pub proof fn lemma_poisoned_recycle_refused(m: Manager, conn: ConnectionObject, work: WorkerCompletion)
    requires
        conn.is_poisoned_spec(),
    ensures
        recycle_result_spec(m, conn, work) == Err::<(), RecycleError>(RecycleError::Poisoned),
        count_after_recycle(m, conn) == m.recycle_count_spec(),
{
}

/// Law: if the dedicated execution context terminates abnormally during an
/// `interact` call, the object is poisoned from then on, and every later
/// recycle attempt fails with the terminal poisoned error without the probe
/// query being issued, whatever the context would have reported for it.
pub proof fn lemma_termination_poisons(m: Manager, conn: ConnectionObject, later: WorkerCompletion)
    ensures
        poisoned_after_interact(conn, WorkerCompletion::Terminated),
        forall|p: ConnectionObject|
            p.is_poisoned_spec() ==> recycle_result_spec(m, p, later) == Err::<
                (),
                RecycleError,
            >(RecycleError::Poisoned) && count_after_recycle(m, p) == m.recycle_count_spec(),
{
}

/// Law: a completed round trip that echoes a value other than the one that
/// was sent is never trusted: recycle fails with the mismatch error even
/// though the query itself reported success.
pub proof fn lemma_echo_mismatch_rejected(m: Manager, conn: ConnectionObject, echoed: u64)
    requires
        !conn.is_poisoned_spec(),
        echoed != m.recycle_count_spec() + 1,
    ensures
        recycle_result_spec(m, conn, WorkerCompletion::Finished(echoed)) == Err::<
            (),
            RecycleError,
        >(RecycleError::CountMismatch),
{
}

} // verus!
