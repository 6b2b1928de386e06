use fleet_core::ids::Uuid;
use fleet_core::work_lock::errors::{AcquireLockError, DatabaseError, KeepAliveError, WorkerId};
use fleet_core::work_lock::events::{
    FailureCounter, FailureRecord, Level, WorkLockEvent, WorkLockFailure, WorkLockKeepaliveFailed,
    WorkLockLost, WorkLockOperation, WorkLockReleaseDispatchFailed, WorkLockReleaseFailed,
};

const WORK_LOCK_FAILURES_METRIC: &str = "carbide_work_lock_failures_total";

#[derive(Clone, Copy)]
enum FailureEvent {
    ReleaseDatabase,
    ReleaseLockLost,
    ReleaseDispatch,
    KeepaliveLockLost,
    KeepaliveDatabase,
    KeepaliveDispatch,
    KeepaliveReply,
}

#[derive(Debug, PartialEq)]
struct Observed {
    metadata_name: String,
    level: Level,
    message: String,
    event_name: Option<String>,
    metric_name: Option<String>,
    operation: Option<String>,
    failure: Option<String>,
    work_key: Option<String>,
    worker_id: Option<String>,
    error: Option<String>,
    counter_delta: f64,
}

struct Check {
    scenario: &'static str,
    input: FailureEvent,
    expect: Observed,
}

fn field(record: &FailureRecord, name: &str) -> Option<String> {
    match name {
        "event_name" => Some(record.event_name.to_string()),
        "metric_name" => Some(record.metric_name.to_string()),
        "operation" => Some(record.operation.label_value().to_string()),
        "failure" => Some(record.failure.label_value().to_string()),
        "work_key" => Some(record.work_key.clone()),
        "worker_id" => record.worker_id.clone(),
        "error" => Some(record.error.clone()),
        _ => None,
    }
}

/// What an emitted event is logged as; it also counts it.
fn emit(event: WorkLockEvent, counter: &mut FailureCounter, logs: &mut Vec<FailureRecord>) {
    let record = event.record();
    counter.increment(&record);
    logs.push(record);
}

#[test]
fn work_lock_failures_log_and_count_by_boundary() {
    let worker_id = WorkerId::nil();
    let nil_text = worker_id.to_text();

    let checks = vec![
        Check {
            scenario: "release database failure",
            input: FailureEvent::ReleaseDatabase,
            expect: Observed {
                metadata_name: "work_lock_release_failed".to_string(),
                level: Level::Error,
                message: "Could not release work lock".to_string(),
                event_name: Some("work_lock_release_failed".to_string()),
                metric_name: Some(WORK_LOCK_FAILURES_METRIC.to_string()),
                operation: Some("release".to_string()),
                failure: Some("database".to_string()),
                work_key: Some("work-key".to_string()),
                worker_id: None,
                error: Some("internal error: database unavailable".to_string()),
                counter_delta: 1.0,
            },
        },
        Check {
            scenario: "release after lock loss",
            input: FailureEvent::ReleaseLockLost,
            expect: Observed {
                metadata_name: "work_lock_release_failed".to_string(),
                level: Level::Error,
                message: "Could not release work lock".to_string(),
                event_name: Some("work_lock_release_failed".to_string()),
                metric_name: Some(WORK_LOCK_FAILURES_METRIC.to_string()),
                operation: Some("release".to_string()),
                failure: Some("lock_lost".to_string()),
                work_key: Some("work-key".to_string()),
                worker_id: None,
                error: Some("lock expired".to_string()),
                counter_delta: 1.0,
            },
        },
        Check {
            scenario: "release command dispatch failure",
            input: FailureEvent::ReleaseDispatch,
            expect: Observed {
                metadata_name: "work_lock_release_dispatch_failed".to_string(),
                level: Level::Error,
                message: "Could not release work lock: WorkLockManager queue is full; database is likely overloaded".to_string(),
                event_name: Some("work_lock_release_dispatch_failed".to_string()),
                metric_name: Some(WORK_LOCK_FAILURES_METRIC.to_string()),
                operation: Some("release".to_string()),
                failure: Some("command_dispatch".to_string()),
                work_key: Some("work-key".to_string()),
                worker_id: Some(nil_text.clone()),
                error: Some("no available capacity".to_string()),
                counter_delta: 1.0,
            },
        },
        Check {
            scenario: "keepalive lock lost",
            input: FailureEvent::KeepaliveLockLost,
            expect: Observed {
                metadata_name: "work_lock_lost".to_string(),
                level: Level::Error,
                message: "worker lost lock".to_string(),
                event_name: Some("work_lock_lost".to_string()),
                metric_name: Some(WORK_LOCK_FAILURES_METRIC.to_string()),
                operation: Some("keep_alive".to_string()),
                failure: Some("lock_lost".to_string()),
                work_key: Some("work-key".to_string()),
                worker_id: Some(nil_text.clone()),
                error: Some("lock expired".to_string()),
                counter_delta: 1.0,
            },
        },
        Check {
            scenario: "keepalive database failure",
            input: FailureEvent::KeepaliveDatabase,
            expect: Observed {
                metadata_name: "work_lock_keepalive_failed".to_string(),
                level: Level::Error,
                message: "Failed to send work-lock keepalive; retrying".to_string(),
                event_name: Some("work_lock_keepalive_failed".to_string()),
                metric_name: Some(WORK_LOCK_FAILURES_METRIC.to_string()),
                operation: Some("keep_alive".to_string()),
                failure: Some("database".to_string()),
                work_key: Some("work-key".to_string()),
                worker_id: Some(nil_text.clone()),
                error: Some("database unavailable".to_string()),
                counter_delta: 1.0,
            },
        },
        Check {
            scenario: "keepalive command dispatch failure",
            input: FailureEvent::KeepaliveDispatch,
            expect: Observed {
                metadata_name: "work_lock_keepalive_failed".to_string(),
                level: Level::Error,
                message: "Failed to send work-lock keepalive; retrying".to_string(),
                event_name: Some("work_lock_keepalive_failed".to_string()),
                metric_name: Some(WORK_LOCK_FAILURES_METRIC.to_string()),
                operation: Some("keep_alive".to_string()),
                failure: Some("command_dispatch".to_string()),
                work_key: Some("work-key".to_string()),
                worker_id: Some(nil_text.clone()),
                error: Some("no available capacity".to_string()),
                counter_delta: 1.0,
            },
        },
        Check {
            scenario: "keepalive command reply failure",
            input: FailureEvent::KeepaliveReply,
            expect: Observed {
                metadata_name: "work_lock_keepalive_failed".to_string(),
                level: Level::Error,
                message: "Failed to send work-lock keepalive; retrying".to_string(),
                event_name: Some("work_lock_keepalive_failed".to_string()),
                metric_name: Some(WORK_LOCK_FAILURES_METRIC.to_string()),
                operation: Some("keep_alive".to_string()),
                failure: Some("command_reply".to_string()),
                work_key: Some("work-key".to_string()),
                worker_id: Some(nil_text.clone()),
                error: Some("reply channel closed".to_string()),
                counter_delta: 1.0,
            },
        },
    ];

    let mut counter = FailureCounter::new();
    for check in checks {
        let mut logs = Vec::new();
        let (operation, failure, event) = match check.input {
            FailureEvent::ReleaseDatabase => {
                let error = DatabaseError::Internal {
                    message: "database unavailable".to_string(),
                };
                (
                    WorkLockOperation::Release,
                    WorkLockFailure::Database,
                    WorkLockEvent::ReleaseFailed(WorkLockReleaseFailed::new(
                        "work-key".to_string(),
                        &error,
                    )),
                )
            }
            FailureEvent::ReleaseLockLost => {
                let error = DatabaseError::FailedPrecondition("lock expired".to_string());
                (
                    WorkLockOperation::Release,
                    WorkLockFailure::LockLost,
                    WorkLockEvent::ReleaseFailed(WorkLockReleaseFailed::new(
                        "work-key".to_string(),
                        &error,
                    )),
                )
            }
            FailureEvent::ReleaseDispatch => (
                WorkLockOperation::Release,
                WorkLockFailure::CommandDispatch,
                WorkLockEvent::ReleaseDispatchFailed(WorkLockReleaseDispatchFailed::new(
                    "work-key".to_string(),
                    worker_id,
                    "no available capacity".to_string(),
                )),
            ),
            FailureEvent::KeepaliveLockLost => (
                WorkLockOperation::KeepAlive,
                WorkLockFailure::LockLost,
                WorkLockEvent::Lost(WorkLockLost::new(
                    "work-key".to_string(),
                    worker_id,
                    "lock expired".to_string(),
                )),
            ),
            FailureEvent::KeepaliveDatabase => (
                WorkLockOperation::KeepAlive,
                WorkLockFailure::Database,
                WorkLockEvent::KeepaliveFailed(WorkLockKeepaliveFailed::new(
                    WorkLockFailure::Database,
                    "work-key".to_string(),
                    worker_id,
                    "database unavailable".to_string(),
                )),
            ),
            FailureEvent::KeepaliveDispatch => (
                WorkLockOperation::KeepAlive,
                WorkLockFailure::CommandDispatch,
                WorkLockEvent::KeepaliveFailed(WorkLockKeepaliveFailed::new(
                    WorkLockFailure::CommandDispatch,
                    "work-key".to_string(),
                    worker_id,
                    "no available capacity".to_string(),
                )),
            ),
            FailureEvent::KeepaliveReply => (
                WorkLockOperation::KeepAlive,
                WorkLockFailure::CommandReply,
                WorkLockEvent::KeepaliveFailed(WorkLockKeepaliveFailed::new(
                    WorkLockFailure::CommandReply,
                    "work-key".to_string(),
                    worker_id,
                    "reply channel closed".to_string(),
                )),
            ),
        };

        let before = counter.get(operation, failure);
        emit(event, &mut counter, &mut logs);
        assert_eq!(logs.len(), 1, "one emit must produce one log record");
        let log = &logs[0];
        let observed = Observed {
            metadata_name: log.event_name.to_string(),
            level: log.level,
            message: log.message.to_string(),
            event_name: field(log, "event_name"),
            metric_name: field(log, "metric_name"),
            operation: field(log, "operation"),
            failure: field(log, "failure"),
            work_key: field(log, "work_key"),
            worker_id: field(log, "worker_id"),
            error: field(log, "error"),
            counter_delta: (counter.get(operation, failure) - before) as f64,
        };
        assert_eq!(observed, check.expect, "{}", check.scenario);
        assert_eq!(log.component, "nico-api");
        assert_eq!(
            log.metric_description,
            "Number of work-lock lifecycle failures, by operation and failure kind."
        );
    }
}

#[test]
fn keepalive_errors_map_to_bounded_failures() {
    let (reply_tx, reply_rx) = tokio::sync::oneshot::channel::<()>();
    drop(reply_tx);
    let reply_error = reply_rx
        .blocking_recv()
        .expect_err("closed reply channel should fail");

    let checks = vec![
        (
            "database failure",
            KeepAliveError::Database(DatabaseError::Internal {
                message: "database unavailable".to_string(),
            }),
            WorkLockFailure::Database,
        ),
        (
            "command dispatch failure",
            KeepAliveError::WorkLockManagerSend("no available capacity".to_string()),
            WorkLockFailure::CommandDispatch,
        ),
        (
            "command reply failure",
            KeepAliveError::WorkLockManagerReply(reply_error.to_string()),
            WorkLockFailure::CommandReply,
        ),
        (
            "lock lost",
            KeepAliveError::LockLost("lock expired".to_string()),
            WorkLockFailure::LockLost,
        ),
    ];
    for (scenario, input, expect) in checks {
        assert_eq!(input.failure(), expect, "{scenario}");
    }
}

#[test]
fn keepalive_errors_say_what_went_wrong() {
    assert_eq!(
        KeepAliveError::LockLost("lock expired".to_string()).message(),
        "lock expired"
    );
    assert_eq!(
        KeepAliveError::from(DatabaseError::Internal {
            message: "down".to_string()
        })
        .message(),
        "internal error: down"
    );
    assert_eq!(
        KeepAliveError::WorkLockManagerSend("no available capacity".to_string()).message(),
        "error sending KeepAlive command to WorkLockManager, database is likely overloaded: no available capacity"
    );
    assert_eq!(
        KeepAliveError::WorkLockManagerReply("channel closed".to_string()).message(),
        "BUG: error receiving KeepAlive reply from WorkLockManager, database connections are likely failing: channel closed"
    );
}

#[test]
fn acquire_errors_say_what_went_wrong() {
    assert_eq!(
        AcquireLockError::WorkAlreadyLocked("site-1".to_string()).message(),
        "work is already locked for site-1"
    );
    assert_eq!(
        AcquireLockError::from(DatabaseError::Acquire("pool timed out".to_string())).message(),
        "pool timed out"
    );
    assert_eq!(
        AcquireLockError::WorkLockManagerSend("no available capacity".to_string()).message(),
        "error sending AcquireLock command to WorkLockManager, database is likely overloaded: no available capacity"
    );
    assert_eq!(
        AcquireLockError::WorkLockManagerReply("channel closed".to_string()).message(),
        "BUG: error receiving AcquireLock reply from WorkLockManager, database connections are likely failing: channel closed"
    );
    assert_eq!(
        AcquireLockError::Timeout("deadline has elapsed".to_string()).message(),
        "deadline has elapsed"
    );
}

#[test]
fn counts_are_kept_apart_by_their_labels() {
    let operations = [WorkLockOperation::Release, WorkLockOperation::KeepAlive];
    let failures = [
        WorkLockFailure::Database,
        WorkLockFailure::CommandDispatch,
        WorkLockFailure::CommandReply,
        WorkLockFailure::LockLost,
    ];
    let mut counter = FailureCounter::new();
    let event = WorkLockEvent::Lost(WorkLockLost::new(
        "k".to_string(),
        Uuid::nil(),
        "gone".to_string(),
    ));
    for _ in 0..3 {
        counter.increment(&event.record());
    }
    for operation in operations {
        for failure in failures {
            let expected = if operation == WorkLockOperation::KeepAlive
                && failure == WorkLockFailure::LockLost
            {
                3
            } else {
                0
            };
            assert_eq!(counter.get(operation, failure), expected);
        }
    }
}

#[test]
fn labels_differ() {
    let labels: Vec<&str> = vec![
        WorkLockOperation::Release.label_value(),
        WorkLockOperation::KeepAlive.label_value(),
        WorkLockFailure::Database.label_value(),
        WorkLockFailure::CommandDispatch.label_value(),
        WorkLockFailure::CommandReply.label_value(),
        WorkLockFailure::LockLost.label_value(),
    ];
    for i in 0..labels.len() {
        for j in 0..i {
            assert_ne!(labels[i], labels[j]);
        }
    }
}

#[test]
fn identifiers_are_written_hyphenated() {
    assert_eq!(
        Uuid::nil().to_text(),
        "00000000-0000-0000-0000-000000000000"
    );
    assert_eq!(
        Uuid::from_u128(0x550e8400_e29b_41d4_a716_446655440000).to_text(),
        "550e8400-e29b-41d4-a716-446655440000"
    );
    assert_eq!(
        Uuid::from_u128(u128::MAX).to_text(),
        "ffffffff-ffff-ffff-ffff-ffffffffffff"
    );
}
