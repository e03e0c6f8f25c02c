use sqlite_pool::connection::ConnectionObject;
use sqlite_pool::connection::InteractOutcome;
use sqlite_pool::connection::WorkerCompletion;
use sqlite_pool::errors::CreateError;
use sqlite_pool::errors::RecycleError;
use sqlite_pool::manager::Config;
use sqlite_pool::manager::ConnectOutcome;
use sqlite_pool::manager::Manager;
use sqlite_pool::manager::RecycleDecision;
use sqlite_pool::manager::RuntimeMode;
use sqlite_pool::manager::decide_probe;

fn test_manager() -> Manager {
    let config = Config {
        path: String::from("db.sqlite3"),
    };
    Manager::from_config(&config, RuntimeMode::Tokio1)
}

#[test]
fn from_config_keeps_path_and_runtime_and_zeroes_counter() {
    let config = Config {
        path: String::from("/var/data/app.sqlite3"),
    };
    let manager = Manager::from_config(&config, RuntimeMode::AsyncStd1);
    assert_eq!(manager.path(), "/var/data/app.sqlite3");
    assert_eq!(manager.recycle_count(), 0);
    assert_eq!(manager.runtime(), RuntimeMode::AsyncStd1);
}

#[test]
fn created_object_is_not_poisoned() {
    let manager = test_manager();
    let object = manager.create(ConnectOutcome::Opened).unwrap();
    assert!(!object.is_poisoned());
}

#[test]
fn failing_connect_strategy_surfaces_open_error_verbatim() {
    let manager = test_manager();
    let result = manager.create(ConnectOutcome::OpenFailed(String::from(
        "unable to open database file",
    )));
    assert_eq!(
        result,
        Err(CreateError::Open(String::from("unable to open database file")))
    );
    assert_eq!(manager.recycle_count(), 0);
}

#[test]
fn missing_execution_context_surfaces_runtime_error() {
    let manager = test_manager();
    let result = manager.create(ConnectOutcome::NoContext(String::from(
        "no runtime specified",
    )));
    assert_eq!(
        result,
        Err(CreateError::Runtime(String::from("no runtime specified")))
    );
}

#[test]
fn two_healthy_recycles_echo_one_then_two() {
    let mut manager = test_manager();
    let mut object = manager.create(ConnectOutcome::Opened).unwrap();

    // First recycle: the counter becomes 1 and the database echoes 1 back.
    let first = manager.recycle(&mut object, WorkerCompletion::Finished(1));
    assert_eq!(first, Ok(()));
    assert_eq!(manager.recycle_count(), 1);

    // Second recycle: the counter becomes 2 and the database echoes 2 back.
    let second = manager.recycle(&mut object, WorkerCompletion::Finished(2));
    assert_eq!(second, Ok(()));
    assert_eq!(manager.recycle_count(), 2);
    assert!(!object.is_poisoned());
}

#[test]
fn interleaved_recycles_observe_distinct_counter_values() {
    let mut manager = test_manager();
    let object_one = manager.create(ConnectOutcome::Opened).unwrap();
    let object_two = manager.create(ConnectOutcome::Opened).unwrap();

    // Both recycle attempts fetch their counter value before either probe
    // resolves, as two concurrent callers would.
    let decision_one = manager.begin_recycle(&object_one);
    let decision_two = manager.begin_recycle(&object_two);
    let n1 = match decision_one {
        RecycleDecision::Probe(n) => n,
        RecycleDecision::Reject => panic!("healthy object refused"),
    };
    let n2 = match decision_two {
        RecycleDecision::Probe(n) => n,
        RecycleDecision::Reject => panic!("healthy object refused"),
    };
    assert_eq!((n1, n2), (1, 2));
    assert_ne!(n1, n2);

    // Both connections are healthy: each probe echoes its own value back and
    // both recycles succeed.
    assert_eq!(decide_probe(n1, InteractOutcome::Completed(n1)), Ok(()));
    assert_eq!(decide_probe(n2, InteractOutcome::Completed(n2)), Ok(()));
}

#[test]
fn echo_mismatch_fails_even_though_query_succeeded() {
    let mut manager = test_manager();
    let mut object = manager.create(ConnectOutcome::Opened).unwrap();
    // The query reports success but echoes a stale value instead of 1.
    let result = manager.recycle(&mut object, WorkerCompletion::Finished(7));
    assert_eq!(result, Err(RecycleError::CountMismatch));
    // The attempt still consumed its counter value.
    assert_eq!(manager.recycle_count(), 1);
}

#[test]
fn failing_query_is_wrapped_with_its_message() {
    let mut manager = test_manager();
    let mut object = manager.create(ConnectOutcome::Opened).unwrap();
    let result = manager.recycle(
        &mut object,
        WorkerCompletion::Failed(String::from("database is locked")),
    );
    assert_eq!(
        result,
        Err(RecycleError::Query(String::from("database is locked")))
    );
    assert!(!object.is_poisoned());
}

#[test]
fn bridge_failure_is_distinct_from_query_failure() {
    assert_eq!(
        decide_probe(3, InteractOutcome::BridgeFailure),
        Err(RecycleError::Bridge)
    );
    assert_eq!(
        decide_probe(3, InteractOutcome::CallFailed(String::from("boom"))),
        Err(RecycleError::Query(String::from("boom")))
    );
}

#[test]
fn terminated_context_poisons_object_and_recycle_refuses_it() {
    let mut manager = test_manager();
    let mut object = manager.create(ConnectOutcome::Opened).unwrap();

    // A blocking call is submitted and the dedicated execution context is
    // forcibly terminated before completion.
    let outcome = object.interact(WorkerCompletion::Terminated);
    assert_eq!(outcome, InteractOutcome::BridgeFailure);
    assert!(object.is_poisoned());

    // The following recycle fails terminally without attempting the
    // round-trip query: the counter does not move.
    let result = manager.recycle(&mut object, WorkerCompletion::Finished(1));
    assert_eq!(result, Err(RecycleError::Poisoned));
    assert_eq!(manager.recycle_count(), 0);
    let decision = manager.begin_recycle(&object);
    assert_eq!(decision, RecycleDecision::Reject);
    assert_eq!(manager.recycle_count(), 0);
}

#[test]
fn termination_during_recycle_probe_poisons_and_surfaces_bridge_error() {
    let mut manager = test_manager();
    let mut object = manager.create(ConnectOutcome::Opened).unwrap();
    let result = manager.recycle(&mut object, WorkerCompletion::Terminated);
    assert_eq!(result, Err(RecycleError::Bridge));
    assert!(object.is_poisoned());
    // The attempt had already fetched its counter value before the probe.
    assert_eq!(manager.recycle_count(), 1);
}

#[test]
fn poisoned_object_accepts_no_further_interact_calls() {
    let mut object = ConnectionObject::new();
    object.mark_poisoned();
    assert!(object.is_poisoned());
    let outcome = object.interact(WorkerCompletion::Finished(42));
    assert_eq!(outcome, InteractOutcome::BridgeFailure);
    assert!(object.is_poisoned());
}

#[test]
fn interact_hands_back_the_calls_own_outcome_while_healthy() {
    let mut object = ConnectionObject::new();
    assert_eq!(
        object.interact(WorkerCompletion::Finished(9)),
        InteractOutcome::Completed(9)
    );
    assert_eq!(
        object.interact(WorkerCompletion::Failed(String::from("constraint failed"))),
        InteractOutcome::CallFailed(String::from("constraint failed"))
    );
    assert!(!object.is_poisoned());
}

#[test]
fn decide_probe_trusts_only_an_exact_echo() {
    assert_eq!(decide_probe(5, InteractOutcome::Completed(5)), Ok(()));
    assert_eq!(
        decide_probe(5, InteractOutcome::Completed(6)),
        Err(RecycleError::CountMismatch)
    );
    assert_eq!(
        decide_probe(5, InteractOutcome::Completed(4)),
        Err(RecycleError::CountMismatch)
    );
    assert_eq!(decide_probe(0, InteractOutcome::Completed(0)), Ok(()));
}
