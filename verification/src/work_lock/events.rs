//! Failure events of the lock lifecycle.
//!
//! All events share one counter, so they agree on its name and on its label
//! keys; each keeps a message and a context of its own.

use crate::work_lock::errors::{DatabaseError, WorkKey, WorkerId};
use vstd::prelude::*;

verus! {

/// What was being done to the lock.
#[derive(Debug, Clone, Copy, PartialEq, Eq, Structural)]
pub enum WorkLockOperation {
    Release,
    KeepAlive,
}

/// What went wrong with it.
#[derive(Debug, Clone, Copy, PartialEq, Eq, Structural)]
pub enum WorkLockFailure {
    Database,
    CommandDispatch,
    CommandReply,
    LockLost,
}

impl WorkLockOperation {
    pub open spec fn label(self) -> Seq<char> {
        match self {
            WorkLockOperation::Release => "release"@,
            WorkLockOperation::KeepAlive => "keep_alive"@,
        }
    }

    /// The operation as a metric label.
    pub fn label_value(&self) -> (r: &'static str)
        ensures
            r@ == self.label(),
    {
        match self {
            WorkLockOperation::Release => "release",
            WorkLockOperation::KeepAlive => "keep_alive",
        }
    }
}

impl WorkLockFailure {
    pub open spec fn label(self) -> Seq<char> {
        match self {
            WorkLockFailure::Database => "database"@,
            WorkLockFailure::CommandDispatch => "command_dispatch"@,
            WorkLockFailure::CommandReply => "command_reply"@,
            WorkLockFailure::LockLost => "lock_lost"@,
        }
    }

    /// The failure as a metric label.
    pub fn label_value(&self) -> (r: &'static str)
        ensures
            r@ == self.label(),
    {
        match self {
            WorkLockFailure::Database => "database",
            WorkLockFailure::CommandDispatch => "command_dispatch",
            WorkLockFailure::CommandReply => "command_reply",
            WorkLockFailure::LockLost => "lock_lost",
        }
    }
}

/// The manager could not release a lock.
#[derive(Debug)]
pub struct WorkLockReleaseFailed {
    pub operation: WorkLockOperation,
    pub failure: WorkLockFailure,
    pub work_key: WorkKey,
    pub error: String,
}

impl WorkLockReleaseFailed {
    /// A release that found no row of its own lost the lock; any other error is the database's.
    pub fn new(work_key: WorkKey, error: &DatabaseError) -> (r: WorkLockReleaseFailed)
        ensures
            r.operation == WorkLockOperation::Release,
            r.failure == if error is FailedPrecondition {
                WorkLockFailure::LockLost
            } else {
                WorkLockFailure::Database
            },
            r.work_key == work_key,
            r.error@ == error.text(),
    {
        WorkLockReleaseFailed {
            operation: WorkLockOperation::Release,
            failure: match error {
                DatabaseError::FailedPrecondition(_) => WorkLockFailure::LockLost,
                _ => WorkLockFailure::Database,
            },
            work_key,
            error: error.message(),
        }
    }
}

/// The release command of a dropped lock did not fit into the manager's queue.
#[derive(Debug)]
pub struct WorkLockReleaseDispatchFailed {
    pub operation: WorkLockOperation,
    pub failure: WorkLockFailure,
    pub work_key: WorkKey,
    pub worker_id: WorkerId,
    pub error: String,
}

impl WorkLockReleaseDispatchFailed {
    pub fn new(work_key: WorkKey, worker_id: WorkerId, error: String) -> (r:
        WorkLockReleaseDispatchFailed)
        ensures
            r == (WorkLockReleaseDispatchFailed {
                operation: WorkLockOperation::Release,
                failure: WorkLockFailure::CommandDispatch,
                work_key,
                worker_id,
                error,
            }),
    {
        WorkLockReleaseDispatchFailed {
            operation: WorkLockOperation::Release,
            failure: WorkLockFailure::CommandDispatch,
            work_key,
            worker_id,
            error,
        }
    }
}

/// A keep-alive found that the lock is no longer the worker's.
#[derive(Debug)]
pub struct WorkLockLost {
    pub operation: WorkLockOperation,
    pub failure: WorkLockFailure,
    pub work_key: WorkKey,
    pub worker_id: WorkerId,
    pub error: String,
}

impl WorkLockLost {
    pub fn new(work_key: WorkKey, worker_id: WorkerId, error: String) -> (r: WorkLockLost)
        ensures
            r == (WorkLockLost {
                operation: WorkLockOperation::KeepAlive,
                failure: WorkLockFailure::LockLost,
                work_key,
                worker_id,
                error,
            }),
    {
        WorkLockLost {
            operation: WorkLockOperation::KeepAlive,
            failure: WorkLockFailure::LockLost,
            work_key,
            worker_id,
            error,
        }
    }
}

/// A keep-alive failed for another reason; the next one tries again.
#[derive(Debug)]
pub struct WorkLockKeepaliveFailed {
    pub operation: WorkLockOperation,
    pub failure: WorkLockFailure,
    pub work_key: WorkKey,
    pub worker_id: WorkerId,
    pub error: String,
}

impl WorkLockKeepaliveFailed {
    pub fn new(
        failure: WorkLockFailure,
        work_key: WorkKey,
        worker_id: WorkerId,
        error: String,
    ) -> (r: WorkLockKeepaliveFailed)
        ensures
            r == (WorkLockKeepaliveFailed {
                operation: WorkLockOperation::KeepAlive,
                failure,
                work_key,
                worker_id,
                error,
            }),
    {
        WorkLockKeepaliveFailed {
            operation: WorkLockOperation::KeepAlive,
            failure,
            work_key,
            worker_id,
            error,
        }
    }
}

/// Any of the failure events.
#[derive(Debug)]
pub enum WorkLockEvent {
    ReleaseFailed(WorkLockReleaseFailed),
    ReleaseDispatchFailed(WorkLockReleaseDispatchFailed),
    Lost(WorkLockLost),
    KeepaliveFailed(WorkLockKeepaliveFailed),
}

/// How severe a log record is.
#[derive(Debug, Clone, Copy, PartialEq, Eq, Structural)]
pub enum Level {
    Trace,
    Debug,
    Info,
    Warn,
    Error,
}

/// What is logged and counted for an event.
#[derive(Debug)]
pub struct FailureRecord {
    pub event_name: &'static str,
    pub metric_name: &'static str,
    pub metric_description: &'static str,
    pub component: &'static str,
    pub level: Level,
    pub message: &'static str,
    pub operation: WorkLockOperation,
    pub failure: WorkLockFailure,
    pub work_key: String,
    pub worker_id: Option<String>,
    pub error: String,
}

impl WorkLockEvent {
    pub open spec fn spec_operation(self) -> WorkLockOperation {
        match self {
            WorkLockEvent::ReleaseFailed(event) => event.operation,
            WorkLockEvent::ReleaseDispatchFailed(event) => event.operation,
            WorkLockEvent::Lost(event) => event.operation,
            WorkLockEvent::KeepaliveFailed(event) => event.operation,
        }
    }

    pub open spec fn spec_failure(self) -> WorkLockFailure {
        match self {
            WorkLockEvent::ReleaseFailed(event) => event.failure,
            WorkLockEvent::ReleaseDispatchFailed(event) => event.failure,
            WorkLockEvent::Lost(event) => event.failure,
            WorkLockEvent::KeepaliveFailed(event) => event.failure,
        }
    }

    pub open spec fn event_name(self) -> Seq<char> {
        match self {
            WorkLockEvent::ReleaseFailed(_) => "work_lock_release_failed"@,
            WorkLockEvent::ReleaseDispatchFailed(_) => "work_lock_release_dispatch_failed"@,
            WorkLockEvent::Lost(_) => "work_lock_lost"@,
            WorkLockEvent::KeepaliveFailed(_) => "work_lock_keepalive_failed"@,
        }
    }

    pub open spec fn message(self) -> Seq<char> {
        match self {
            WorkLockEvent::ReleaseFailed(_) => "Could not release work lock"@,
            WorkLockEvent::ReleaseDispatchFailed(_) =>
                "Could not release work lock: WorkLockManager queue is full; database is likely overloaded"@,
            WorkLockEvent::Lost(_) => "worker lost lock"@,
            WorkLockEvent::KeepaliveFailed(_) => "Failed to send work-lock keepalive; retrying"@,
        }
    }

    pub open spec fn work_key(self) -> WorkKey {
        match self {
            WorkLockEvent::ReleaseFailed(event) => event.work_key,
            WorkLockEvent::ReleaseDispatchFailed(event) => event.work_key,
            WorkLockEvent::Lost(event) => event.work_key,
            WorkLockEvent::KeepaliveFailed(event) => event.work_key,
        }
    }

    /// A failed release is reported without the worker.
    pub open spec fn worker_id(self) -> Option<WorkerId> {
        match self {
            WorkLockEvent::ReleaseFailed(_) => None,
            WorkLockEvent::ReleaseDispatchFailed(event) => Some(event.worker_id),
            WorkLockEvent::Lost(event) => Some(event.worker_id),
            WorkLockEvent::KeepaliveFailed(event) => Some(event.worker_id),
        }
    }

    pub open spec fn error(self) -> String {
        match self {
            WorkLockEvent::ReleaseFailed(event) => event.error,
            WorkLockEvent::ReleaseDispatchFailed(event) => event.error,
            WorkLockEvent::Lost(event) => event.error,
            WorkLockEvent::KeepaliveFailed(event) => event.error,
        }
    }

    /// The log record of the event. Name, description and component of the counter, and the
    /// level, are the same for every event.
    pub fn record(&self) -> (r: FailureRecord)
        ensures
            r.event_name@ == self.event_name(),
            r.metric_name@ == "carbide_work_lock_failures_total"@,
            r.metric_description@
                == "Number of work-lock lifecycle failures, by operation and failure kind."@,
            r.component@ == "nico-api"@,
            r.level == Level::Error,
            r.message@ == self.message(),
            r.operation == self.spec_operation(),
            r.failure == self.spec_failure(),
            r.work_key == self.work_key(),
            match (self.worker_id(), r.worker_id) {
                (Some(worker_id), Some(text)) => text@ == worker_id.text(),
                (None, None) => true,
                _ => false,
            },
            r.error == self.error(),
    {
        let metric_name: &'static str = "carbide_work_lock_failures_total";
        let metric_description: &'static str =
            "Number of work-lock lifecycle failures, by operation and failure kind.";
        let component: &'static str = "nico-api";
        let level = Level::Error;
        match self {
            WorkLockEvent::ReleaseFailed(event) => FailureRecord {
                event_name: "work_lock_release_failed",
                metric_name,
                metric_description,
                component,
                level,
                message: "Could not release work lock",
                operation: event.operation,
                failure: event.failure,
                work_key: event.work_key.clone(),
                worker_id: None,
                error: event.error.clone(),
            },
            WorkLockEvent::ReleaseDispatchFailed(event) => FailureRecord {
                event_name: "work_lock_release_dispatch_failed",
                metric_name,
                metric_description,
                component,
                level,
                message:
                    "Could not release work lock: WorkLockManager queue is full; database is likely overloaded",
                operation: event.operation,
                failure: event.failure,
                work_key: event.work_key.clone(),
                worker_id: Some(event.worker_id.to_text()),
                error: event.error.clone(),
            },
            WorkLockEvent::Lost(event) => FailureRecord {
                event_name: "work_lock_lost",
                metric_name,
                metric_description,
                component,
                level,
                message: "worker lost lock",
                operation: event.operation,
                failure: event.failure,
                work_key: event.work_key.clone(),
                worker_id: Some(event.worker_id.to_text()),
                error: event.error.clone(),
            },
            WorkLockEvent::KeepaliveFailed(event) => FailureRecord {
                event_name: "work_lock_keepalive_failed",
                metric_name,
                metric_description,
                component,
                level,
                message: "Failed to send work-lock keepalive; retrying",
                operation: event.operation,
                failure: event.failure,
                work_key: event.work_key.clone(),
                worker_id: Some(event.worker_id.to_text()),
                error: event.error.clone(),
            },
        }
    }
}

/// How often each kind of failure was reported.
#[derive(Debug)]
pub struct FailureCounter {
    counts: [u64; 8],
}

impl FailureCounter {
    spec fn slot(operation: WorkLockOperation, failure: WorkLockFailure) -> int {
        let row: int = match operation {
            WorkLockOperation::Release => 0,
            WorkLockOperation::KeepAlive => 4,
        };
        let column: int = match failure {
            WorkLockFailure::Database => 0,
            WorkLockFailure::CommandDispatch => 1,
            WorkLockFailure::CommandReply => 2,
            WorkLockFailure::LockLost => 3,
        };
        row + column
    }

    /// The number of reports under a pair of labels.
    pub closed spec fn count(self, operation: WorkLockOperation, failure: WorkLockFailure) -> u64 {
        self.counts@[Self::slot(operation, failure)]
    }

    /// `after` counts one more report under these labels, and is the same otherwise. A count that
    /// has reached the largest number stays there.
    pub open spec fn is_incremented(
        self,
        operation: WorkLockOperation,
        failure: WorkLockFailure,
        after: FailureCounter,
    ) -> bool {
        forall|o: WorkLockOperation, f: WorkLockFailure| #[trigger]
            after.count(o, f) == if o == operation && f == failure && self.count(o, f) < u64::MAX {
                self.count(o, f) + 1
            } else {
                self.count(o, f) as int
            }
    }

    fn index(operation: WorkLockOperation, failure: WorkLockFailure) -> (r: usize)
        ensures
            r == Self::slot(operation, failure),
            r < 8,
    {
        let row: usize = match operation {
            WorkLockOperation::Release => 0,
            WorkLockOperation::KeepAlive => 4,
        };
        let column: usize = match failure {
            WorkLockFailure::Database => 0,
            WorkLockFailure::CommandDispatch => 1,
            WorkLockFailure::CommandReply => 2,
            WorkLockFailure::LockLost => 3,
        };
        row + column
    }

    /// Nothing reported yet.
    pub fn new() -> (r: FailureCounter)
        ensures
            forall|operation: WorkLockOperation, failure: WorkLockFailure|
                r.count(operation, failure) == 0,
    {
        FailureCounter { counts: [0, 0, 0, 0, 0, 0, 0, 0] }
    }

    /// The number of reports under a pair of labels.
    pub fn get(&self, operation: WorkLockOperation, failure: WorkLockFailure) -> (r: u64)
        ensures
            r == self.count(operation, failure),
    {
        self.counts[Self::index(operation, failure)]
    }

    /// Counts one event under its labels, and nothing else. A count that has reached the largest
    /// number stays there.
    pub fn increment(&mut self, event: &FailureRecord)
        ensures
            old(self).is_incremented(event.operation, event.failure, *final(self)),
    {
        let at: usize = Self::index(event.operation, event.failure);
        let count: u64 = self.counts[at];
        if count < u64::MAX {
            self.counts[at] = count + 1;
        }
    }
}

} // verus!
