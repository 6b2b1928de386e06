//! The side of the workers: asking for a lock, holding it and letting it go.

use crate::time::Duration;
use crate::work_lock::errors::{
    AcquireLockError, DatabaseError, KeepAliveError, WorkKey, WorkerId,
};
use crate::work_lock::events::{
    WorkLockEvent, WorkLockKeepaliveFailed, WorkLockLost, WorkLockReleaseDispatchFailed,
};
use crate::work_lock::manager::{ManagerState, WorkLockManagerCommand};
use vstd::prelude::*;

verus! {

/// How locks are kept alive.
#[derive(Debug, Clone, Copy)]
pub struct KeepaliveConfig {
    /// A held lock sends a keep-alive this often, until it is dropped.
    pub interval: Duration,
    /// A held lock that has sent no keep-alive for this long has expired.
    pub timeout: Duration,
}

impl Default for KeepaliveConfig {
    fn default() -> (r: KeepaliveConfig)
        ensures
            r.interval == (Duration { secs: 10, nanos: 0 }),
            r.timeout == (Duration { secs: 60, nanos: 0 }),
    {
        KeepaliveConfig { interval: Duration::from_secs(10), timeout: Duration::from_secs(60) }
    }
}

/// How a call of the manager ended.
#[derive(Debug)]
pub enum Call<T, E> {
    /// The command did not fit into the queue.
    NotSent(String),
    /// The manager dropped the command without a reply.
    NoReply(String),
    Replied(Result<T, E>),
}

/// What all users of a manager share.
///
/// Locks make sure that a unit of work is done only once at a time, without a connection that
/// stays open for as long as the work takes: a lock is a row that the manager writes, and a crashed
/// worker's row expires.
#[derive(Debug, Clone, Copy)]
pub struct WorkLockManagerHandle {
    pub keepalive_interval: Duration,
}

/// Exclusive ownership of a named unit of work. It is released when it is dropped; if the
/// release finds the manager's queue full, the work stays locked until the lock has expired.
#[derive(Debug)]
pub struct WorkLock {
    pub manager: WorkLockManagerHandle,
    pub work_key: WorkKey,
    pub worker_id: WorkerId,
}

/// A manager that was started: the handle for its users, and what its loop begins with.
#[derive(Debug)]
pub struct StartedManager {
    pub handle: WorkLockManagerHandle,
    pub state: ManagerState,
    pub keepalive_timeout: Duration,
}

/// Starts a manager with the connection that was reserved for it, if one could be had. Having it
/// from the start, the manager does not contend for one when the pool is exhausted.
pub fn start(connected: Result<(), String>, keepalive_config: KeepaliveConfig) -> (r: Result<
    StartedManager,
    DatabaseError,
>)
    ensures
        r == match connected {
            Ok(()) => Ok(
                StartedManager {
                    handle: WorkLockManagerHandle { keepalive_interval: keepalive_config.interval },
                    state: ManagerState::Receiving { connected: true },
                    keepalive_timeout: keepalive_config.timeout,
                },
            ),
            Err(error) => Err(DatabaseError::Acquire(error)),
        },
{
    match connected {
        Ok(()) => Ok(
            StartedManager {
                handle: WorkLockManagerHandle { keepalive_interval: keepalive_config.interval },
                state: ManagerState::Receiving { connected: true },
                keepalive_timeout: keepalive_config.timeout,
            },
        ),
        Err(error) => Err(DatabaseError::Acquire(error)),
    }
}

impl WorkLockManagerHandle {
    /// The command that asks for a lock.
    pub fn acquire_command(&self, work_key: &WorkKey) -> (r: WorkLockManagerCommand)
        ensures
            r == (WorkLockManagerCommand::AcquireLock { work_key: *work_key }),
    {
        WorkLockManagerCommand::AcquireLock { work_key: work_key.clone() }
    }

    /// What asking for a lock came to.
    pub fn try_acquire_lock(&self, work_key: WorkKey, call: Call<WorkerId, AcquireLockError>) -> (r:
        Result<WorkLock, AcquireLockError>)
        ensures
            r == match call {
                Call::NotSent(error) => Err(AcquireLockError::WorkLockManagerSend(error)),
                Call::NoReply(error) => Err(AcquireLockError::WorkLockManagerReply(error)),
                Call::Replied(Err(error)) => Err(error),
                Call::Replied(Ok(worker_id)) => Ok(
                    WorkLock { manager: *self, work_key, worker_id },
                ),
            },
    {
        match call {
            Call::NotSent(error) => Err(AcquireLockError::WorkLockManagerSend(error)),
            Call::NoReply(error) => Err(AcquireLockError::WorkLockManagerReply(error)),
            Call::Replied(Err(error)) => Err(error),
            Call::Replied(Ok(worker_id)) => Ok(WorkLock::new(*self, work_key, worker_id)),
        }
    }

    /// What a keep-alive came to.
    pub fn keep_lock_alive(&self, call: Call<(), KeepAliveError>) -> (r: Result<(), KeepAliveError>)
        ensures
            r == match call {
                Call::NotSent(error) => Err(KeepAliveError::WorkLockManagerSend(error)),
                Call::NoReply(error) => Err(KeepAliveError::WorkLockManagerReply(error)),
                Call::Replied(result) => result,
            },
    {
        match call {
            Call::NotSent(error) => Err(KeepAliveError::WorkLockManagerSend(error)),
            Call::NoReply(error) => Err(KeepAliveError::WorkLockManagerReply(error)),
            Call::Replied(result) => result,
        }
    }
}

impl WorkLock {
    pub fn new(manager: WorkLockManagerHandle, work_key: WorkKey, worker_id: WorkerId) -> (r:
        WorkLock)
        ensures
            r == (WorkLock { manager, work_key, worker_id }),
    {
        WorkLock { manager, work_key, worker_id }
    }

    /// The loop that keeps this lock alive; it starts out running.
    pub fn keepalive_loop(&self) -> (r: KeepaliveLoop)
        ensures
            r.work_key == self.work_key,
            r.worker_id == self.worker_id,
            r.state == KeepaliveState::Waiting,
    {
        KeepaliveLoop {
            work_key: self.work_key.clone(),
            worker_id: self.worker_id,
            state: KeepaliveState::Waiting,
        }
    }

    /// Is the loop that keeps this lock alive still running?
    pub fn is_alive(&self, keepalive: &KeepaliveLoop) -> (r: bool)
        requires
            keepalive.work_key@ == self.work_key@,
            keepalive.worker_id == self.worker_id,
        ensures
            r == (keepalive.state != KeepaliveState::Stopped),
    {
        match keepalive.state {
            KeepaliveState::Stopped => false,
            _ => true,
        }
    }

    /// The command that lets the lock go.
    pub fn release_command(&self) -> (r: WorkLockManagerCommand)
        ensures
            r == (WorkLockManagerCommand::ReleaseLock {
                work_key: self.work_key,
                worker_id: self.worker_id,
            }),
    {
        WorkLockManagerCommand::ReleaseLock {
            work_key: self.work_key.clone(),
            worker_id: self.worker_id,
        }
    }

    /// The report that the release command did not fit into the queue.
    pub open spec fn spec_release_dispatch_failed(self, error: String) -> WorkLockEvent {
        WorkLockEvent::ReleaseDispatchFailed(
            WorkLockReleaseDispatchFailed {
                operation: crate::work_lock::events::WorkLockOperation::Release,
                failure: crate::work_lock::events::WorkLockFailure::CommandDispatch,
                work_key: self.work_key,
                worker_id: self.worker_id,
                error,
            },
        )
    }

    /// What is to be reported once the release command was sent: nothing, unless it did not fit
    /// into the queue.
    pub fn release_sent(&self, sent: Result<(), String>) -> (r: Option<WorkLockEvent>)
        ensures
            r == match sent {
                Ok(()) => None,
                Err(error) => Some(self.spec_release_dispatch_failed(error)),
            },
    {
        match sent {
            Ok(()) => None,
            Err(error) => Some(self.release_dispatch_failed(error)),
        }
    }

    /// The report that the release command did not fit into the queue.
    pub fn release_dispatch_failed(&self, error: String) -> (r: WorkLockEvent)
        ensures
            r == self.spec_release_dispatch_failed(error),
    {
        WorkLockEvent::ReleaseDispatchFailed(
            WorkLockReleaseDispatchFailed::new(self.work_key.clone(), self.worker_id, error),
        )
    }
}

/// What a keep-alive loop is waiting for.
#[derive(Debug, Clone, Copy, PartialEq, Eq, Structural)]
pub enum KeepaliveState {
    /// The next tick of the timer, or the word to stop.
    Waiting,
    /// The reply to a keep-alive.
    Sending,
    /// Nothing: the loop has ended.
    Stopped,
}

/// What a keep-alive loop is told.
#[derive(Debug)]
pub enum KeepaliveEvent {
    /// The interval has passed.
    Tick,
    /// What the keep-alive came to.
    Replied(Result<(), KeepAliveError>),
    /// The lock was dropped.
    LockDropped,
}

/// What a keep-alive loop is to do next.
#[derive(Debug)]
pub enum KeepaliveStep {
    Wait,
    Send(WorkLockManagerCommand),
    Stop,
    /// The event was not the one that the loop waits for: wait on.
    KeepWaiting,
}

/// What a keep-alive loop is to do, in this order.
#[derive(Debug)]
pub struct KeepaliveAction {
    /// Report the failure.
    pub report: Option<WorkLockEvent>,
    pub next: KeepaliveStep,
}

/// Sends keep-alives for a lock until the lock is dropped or lost.
#[derive(Debug)]
pub struct KeepaliveLoop {
    pub work_key: WorkKey,
    pub worker_id: WorkerId,
    pub state: KeepaliveState,
}

/// What the reply to a keep-alive leads to: a lost lock ends the loop; any other error is
/// reported, and the loop tries again.
pub open spec fn is_reply_step(
    work_key: WorkKey,
    worker_id: WorkerId,
    reply: Result<(), KeepAliveError>,
    next: KeepaliveState,
    action: KeepaliveAction,
) -> bool {
    match reply {
        Ok(()) => {
            &&& next == KeepaliveState::Waiting
            &&& action == (KeepaliveAction { report: None, next: KeepaliveStep::Wait })
        },
        Err(KeepAliveError::LockLost(message)) => {
            &&& next == KeepaliveState::Stopped
            &&& action.next == KeepaliveStep::Stop
            &&& action.report == Some(
                WorkLockEvent::Lost(
                    WorkLockLost {
                        operation: crate::work_lock::events::WorkLockOperation::KeepAlive,
                        failure: crate::work_lock::events::WorkLockFailure::LockLost,
                        work_key,
                        worker_id,
                        error: message,
                    },
                ),
            )
        },
        Err(error) => {
            &&& next == KeepaliveState::Waiting
            &&& action.next == KeepaliveStep::Wait
            &&& action.report matches Some(WorkLockEvent::KeepaliveFailed(failed))
            &&& failed.operation == crate::work_lock::events::WorkLockOperation::KeepAlive
            &&& failed.failure == error.failure_kind()
            &&& failed.work_key == work_key
            &&& failed.worker_id == worker_id
            &&& failed.error@ == error.text()
        },
    }
}

/// From `state`, the event leads to the state `next`, with `action` to be done.
pub open spec fn is_keepalive_step(
    work_key: WorkKey,
    worker_id: WorkerId,
    state: KeepaliveState,
    event: KeepaliveEvent,
    next: KeepaliveState,
    action: KeepaliveAction,
) -> bool {
    match (state, event) {
        (KeepaliveState::Waiting, KeepaliveEvent::Tick) => {
            &&& next == KeepaliveState::Sending
            &&& action == (KeepaliveAction {
                report: None,
                next: KeepaliveStep::Send(
                    WorkLockManagerCommand::KeepLockAlive { work_key, worker_id },
                ),
            })
        },
        (KeepaliveState::Waiting, KeepaliveEvent::LockDropped) => {
            &&& next == KeepaliveState::Stopped
            &&& action == (KeepaliveAction { report: None, next: KeepaliveStep::Stop })
        },
        (KeepaliveState::Sending, KeepaliveEvent::Replied(reply)) => is_reply_step(
            work_key,
            worker_id,
            reply,
            next,
            action,
        ),
        _ => {
            &&& next == state
            &&& action == (KeepaliveAction { report: None, next: KeepaliveStep::KeepWaiting })
        },
    }
}

impl KeepaliveLoop {
    /// One step of the loop.
    pub fn step(&mut self, event: KeepaliveEvent) -> (r: KeepaliveAction)
        ensures
            final(self).work_key == old(self).work_key,
            final(self).worker_id == old(self).worker_id,
            is_keepalive_step(
                old(self).work_key,
                old(self).worker_id,
                old(self).state,
                event,
                final(self).state,
                r,
            ),
    {
        match (self.state, event) {
            (KeepaliveState::Waiting, KeepaliveEvent::Tick) => {
                self.state = KeepaliveState::Sending;
                let command = WorkLockManagerCommand::KeepLockAlive {
                    work_key: self.work_key.clone(),
                    worker_id: self.worker_id,
                };
                KeepaliveAction { report: None, next: KeepaliveStep::Send(command) }
            },
            (KeepaliveState::Waiting, KeepaliveEvent::LockDropped) => {
                self.state = KeepaliveState::Stopped;
                KeepaliveAction { report: None, next: KeepaliveStep::Stop }
            },
            (KeepaliveState::Sending, KeepaliveEvent::Replied(reply)) => {
                match reply {
                    Ok(()) => {
                        self.state = KeepaliveState::Waiting;
                        KeepaliveAction { report: None, next: KeepaliveStep::Wait }
                    },
                    Err(KeepAliveError::LockLost(message)) => {
                        self.state = KeepaliveState::Stopped;
                        let lost = WorkLockLost::new(self.work_key.clone(), self.worker_id, message);
                        KeepaliveAction {
                            report: Some(WorkLockEvent::Lost(lost)),
                            next: KeepaliveStep::Stop,
                        }
                    },
                    Err(error) => {
                        self.state = KeepaliveState::Waiting;
                        let failed = WorkLockKeepaliveFailed::new(
                            error.failure(),
                            self.work_key.clone(),
                            self.worker_id,
                            error.message(),
                        );
                        KeepaliveAction {
                            report: Some(WorkLockEvent::KeepaliveFailed(failed)),
                            next: KeepaliveStep::Wait,
                        }
                    },
                }
            },
            _ => KeepaliveAction { report: None, next: KeepaliveStep::KeepWaiting },
        }
    }
}

} // verus!
