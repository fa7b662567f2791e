use opbridge::actor::{
    classify_db_url, connect_outcome, ConnectionActor, DbQuery, DbScheme, Dispatch, ExecStep,
    Operation, SubmitError, QUEUE_CAPACITY, RETRY_BACKOFF_SECS,
};
use opbridge::outcome::{DbError, DbErrorKind, DbOutcome};

fn query_op(session: i64, sql: &str) -> Operation {
    Operation::Query {
        session,
        query: DbQuery { sql: sql.to_string(), params: Vec::new() },
    }
}

fn some_error() -> DbError {
    DbError { kind: DbErrorKind::Other, message: "connection refused".to_string() }
}

#[test]
fn operations_are_processed_in_submission_order() {
    let mut a = ConnectionActor::new();
    a.submit(query_op(1, "first")).unwrap();
    a.submit(query_op(2, "second")).unwrap();
    a.submit(query_op(3, "third")).unwrap();
    for expected in 1..=3i64 {
        match a.next_dispatch() {
            Dispatch::Execute { session } => {
                assert_eq!(session, expected);
                let _ = a.on_exec_result(Ok(Vec::new()));
            }
            other => panic!("expected Execute, got {:?}", other),
        }
    }
    assert!(matches!(a.next_dispatch(), Dispatch::Idle));
}

#[test]
fn explicit_query_failure_is_reported_once_and_not_retried() {
    let mut a = ConnectionActor::new();
    a.submit(query_op(5, "select 1")).unwrap();
    assert!(matches!(a.next_dispatch(), Dispatch::Execute { session: 5 }));
    let step = a.on_exec_result(Err(some_error()));
    match step {
        ExecStep::Settled { delivery, log_recovery } => {
            assert!(!log_recovery);
            let (session, outcome) = delivery.expect("an error outcome is owed");
            assert_eq!(session, 5);
            assert!(matches!(outcome, DbOutcome::Failure(_)));
        }
        other => panic!("expected Settled, got {:?}", other),
    }
    // Not re-attempted: nothing is left to execute.
    assert!(matches!(a.next_dispatch(), Dispatch::Idle));
    assert!(a.running());
}

#[test]
fn keepalive_failure_retries_with_backoff_and_delivers_nothing() {
    let mut a = ConnectionActor::new();
    a.submit(query_op(0, "select 1")).unwrap();
    assert!(matches!(a.next_dispatch(), Dispatch::Execute { session: 0 }));

    // First failure: silent retry after the fixed backoff.
    let step = a.on_exec_result(Err(some_error()));
    assert_eq!(
        step,
        ExecStep::Retry { backoff_secs: RETRY_BACKOFF_SECS, log_error: false }
    );
    // Second failure of the streak: the log is elevated.
    let step = a.on_exec_result(Err(some_error()));
    assert_eq!(
        step,
        ExecStep::Retry { backoff_secs: RETRY_BACKOFF_SECS, log_error: true }
    );
    // The retry succeeds: recovery is logged, nothing is delivered
    // (session 0 has no subscriber).
    let step = a.on_exec_result(Ok(Vec::new()));
    assert_eq!(step, ExecStep::Settled { delivery: None, log_recovery: true });
    assert!(a.running());
}

#[test]
fn scenario_failure_for_explicit_session_leaves_actor_running() {
    let mut a = ConnectionActor::new();
    a.submit(query_op(7, "select * from t")).unwrap();
    assert!(matches!(a.next_dispatch(), Dispatch::Execute { session: 7 }));
    let step = a.on_exec_result(Err(some_error()));
    match step {
        ExecStep::Settled { delivery: Some((7, DbOutcome::Failure(_))), .. } => {}
        other => panic!("expected one error outcome for session 7, got {:?}", other),
    }
    // Ready for the next operation.
    assert!(a.running());
    a.submit(query_op(8, "select 2")).unwrap();
    assert!(matches!(a.next_dispatch(), Dispatch::Execute { session: 8 }));
}

#[test]
fn scenario_close_then_query_is_never_processed() {
    let mut a = ConnectionActor::new();
    a.submit(Operation::Close).unwrap();
    a.submit(query_op(9, "late")).unwrap();
    // The close terminates the actor.
    assert!(matches!(a.next_dispatch(), Dispatch::Finished));
    assert!(!a.running());
    // The late query is never serviced.
    assert!(matches!(a.next_dispatch(), Dispatch::Finished));
    assert_eq!(a.queue_len(), 1);
    // And nothing further is accepted.
    assert_eq!(a.submit(query_op(10, "later")), Err(SubmitError::Closed));
}

#[test]
fn queue_refuses_beyond_capacity() {
    let mut a = ConnectionActor::new();
    for i in 0..QUEUE_CAPACITY {
        a.submit(query_op(i as i64 + 1, "q")).unwrap();
    }
    assert_eq!(a.submit(query_op(1000, "q")), Err(SubmitError::Full));
}

#[test]
fn senders_dropped_terminates_a_drained_actor() {
    let mut a = ConnectionActor::new();
    a.on_input_closed();
    assert!(!a.running());
    assert!(matches!(a.next_dispatch(), Dispatch::Finished));
}

#[test]
fn db_urls_classify_by_scheme() {
    assert_eq!(classify_db_url("mysql://u@localhost/db"), Ok(DbScheme::MySql));
    assert_eq!(classify_db_url("postgres://u@localhost/db"), Ok(DbScheme::Postgres));
    assert_eq!(classify_db_url("sqlite://file.db"), Ok(DbScheme::Sqlite));
    let e = classify_db_url("redis://localhost").unwrap_err();
    assert_eq!(e.kind, DbErrorKind::Other);
    assert_eq!(e.message, "Unsupported database type");
}

#[test]
fn connect_results_become_outcomes() {
    assert_eq!(connect_outcome(Ok(())), DbOutcome::Connect);
    let e = DbError { kind: DbErrorKind::Other, message: "timed out".to_string() };
    assert_eq!(connect_outcome(Err(e)), DbOutcome::Timeout("timed out".to_string()));
}
