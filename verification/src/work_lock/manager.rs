//! The manager loop: one command at a time, over one reserved connection.
//!
//! The loop keeps a database connection for as long as it runs, so that it can
//! always do its work, even when the connection pool is exhausted. Before each
//! command it makes sure that the connection is alive and writable, and
//! replaces it otherwise. Commands are served in the order in which they were
//! queued, so a release that was queued first is done before a later acquire.

use crate::time::{Duration, Timestamp};
use crate::work_lock::errors::{AcquireLockError, DatabaseError, KeepAliveError, WorkKey, WorkerId};
use crate::work_lock::events::{
    WorkLockEvent, WorkLockFailure, WorkLockOperation, WorkLockReleaseFailed,
};
use crate::work_lock::lock_table::LockTable;
use crate::work_lock::statements::{
    acquire_result, keep_alive_result, release_result, Statement, StatementOutcome, ACQUIRE_SQL,
    KEEP_ALIVE_SQL,
};
use vstd::prelude::*;

verus! {

/// How many commands may wait for the manager. More only do if something goes very wrong with the
/// database.
pub const COMMAND_BUFFER_SIZE: usize = 100;

/// Tells whether a connection is read-only, as it is on a standby.
pub const HEALTH_SQL: &'static str = "SELECT current_setting('transaction_read_only')::bool";

/// What can be asked of the manager.
#[derive(Debug)]
pub enum WorkLockManagerCommand {
    AcquireLock { work_key: WorkKey },
    KeepLockAlive { work_key: WorkKey, worker_id: WorkerId },
    /// Asks for no reply.
    ReleaseLock { work_key: WorkKey, worker_id: WorkerId },
}

/// What the manager answers.
#[derive(Debug)]
pub enum Reply {
    Acquire(Result<WorkerId, AcquireLockError>),
    KeepAlive(Result<(), KeepAliveError>),
}

impl WorkLockManagerCommand {
    /// The key that the command is about.
    pub open spec fn key(self) -> Seq<char> {
        match self {
            WorkLockManagerCommand::AcquireLock { work_key } => work_key@,
            WorkLockManagerCommand::KeepLockAlive { work_key, .. } => work_key@,
            WorkLockManagerCommand::ReleaseLock { work_key, .. } => work_key@,
        }
    }

    /// The statement that serves the command.
    pub open spec fn spec_statement(self, keepalive_timeout: Duration) -> Statement {
        match self {
            WorkLockManagerCommand::AcquireLock { work_key } => Statement::Acquire {
                work_key,
                keepalive_timeout,
            },
            WorkLockManagerCommand::KeepLockAlive { work_key, worker_id } => Statement::KeepAlive {
                work_key,
                worker_id,
            },
            WorkLockManagerCommand::ReleaseLock { work_key, worker_id } => Statement::Release {
                work_key,
                worker_id,
            },
        }
    }

    /// The statement that serves the command.
    pub fn statement(&self, keepalive_timeout: Duration) -> (r: Statement)
        ensures
            r == self.spec_statement(keepalive_timeout),
    {
        match self {
            WorkLockManagerCommand::AcquireLock { work_key } => Statement::Acquire {
                work_key: work_key.clone(),
                keepalive_timeout,
            },
            WorkLockManagerCommand::KeepLockAlive { work_key, worker_id } => Statement::KeepAlive {
                work_key: work_key.clone(),
                worker_id: *worker_id,
            },
            WorkLockManagerCommand::ReleaseLock { work_key, worker_id } => Statement::Release {
                work_key: work_key.clone(),
                worker_id: *worker_id,
            },
        }
    }

    /// The outcome is one of the kind that the command's statement has.
    pub open spec fn fits(self, outcome: StatementOutcome) -> bool {
        (self is AcquireLock) == (outcome is Worker)
    }
}

/// `reply` answers a request to acquire.
pub open spec fn is_acquire_reply(
    work_key: WorkKey,
    outcome: Result<Option<WorkerId>, String>,
    reply: Option<Reply>,
) -> bool {
    match outcome {
        Ok(Some(worker_id)) => reply == Some(Reply::Acquire(Ok(worker_id))),
        Ok(None) => reply == Some(
            Reply::Acquire(Err(AcquireLockError::WorkAlreadyLocked(work_key))),
        ),
        Err(error) => {
            &&& reply matches Some(
                Reply::Acquire(Err(AcquireLockError::Database(DatabaseError::Query {
                    query,
                    error: reported,
                }))),
            )
            &&& query@ == ACQUIRE_SQL@
            &&& reported == error
        },
    }
}

/// `reply` answers a keep-alive.
pub open spec fn is_keep_alive_reply(
    work_key: WorkKey,
    worker_id: WorkerId,
    outcome: Result<Vec<WorkKey>, String>,
    reply: Option<Reply>,
) -> bool {
    match outcome {
        Ok(keys) => if keys@.len() > 0 {
            reply == Some(Reply::KeepAlive(Ok(())))
        } else {
            &&& reply matches Some(Reply::KeepAlive(Err(KeepAliveError::LockLost(message))))
            &&& message@ == crate::work_lock::statements::keep_alive_complaint(work_key@, worker_id)
        },
        Err(error) => {
            &&& reply matches Some(
                Reply::KeepAlive(Err(KeepAliveError::Database(DatabaseError::Query {
                    query,
                    error: reported,
                }))),
            )
            &&& query@ == KEEP_ALIVE_SQL@
            &&& reported == error
        },
    }
}

/// `event` reports what went wrong with a release, if anything did.
pub open spec fn is_release_report(
    work_key: WorkKey,
    worker_id: WorkerId,
    outcome: Result<Vec<WorkKey>, String>,
    event: Option<WorkLockEvent>,
) -> bool {
    if outcome is Ok && outcome->Ok_0@.len() > 0 {
        event is None
    } else {
        &&& event matches Some(WorkLockEvent::ReleaseFailed(failed))
        &&& failed.operation == WorkLockOperation::Release
        &&& failed.work_key == work_key
        &&& match outcome {
            Ok(_) => {
                &&& failed.failure == WorkLockFailure::LockLost
                &&& failed.error@ == crate::work_lock::statements::release_complaint(
                    work_key@,
                    worker_id,
                )
            },
            Err(error) => {
                &&& failed.failure == WorkLockFailure::Database
                &&& failed.error@ == error@
            },
        }
    }
}

/// `reply` and `event` are what a command comes to, given the outcome of its statement.
pub open spec fn is_answer(
    command: WorkLockManagerCommand,
    outcome: StatementOutcome,
    reply: Option<Reply>,
    event: Option<WorkLockEvent>,
) -> bool {
    match (command, outcome) {
        (
            WorkLockManagerCommand::AcquireLock { work_key },
            StatementOutcome::Worker(result),
        ) => is_acquire_reply(work_key, result, reply) && event is None,
        (
            WorkLockManagerCommand::KeepLockAlive { work_key, worker_id },
            StatementOutcome::Keys(result),
        ) => is_keep_alive_reply(work_key, worker_id, result, reply) && event is None,
        (
            WorkLockManagerCommand::ReleaseLock { work_key, worker_id },
            StatementOutcome::Keys(result),
        ) => reply is None && is_release_report(work_key, worker_id, result, event),
        _ => reply is None && event is None,
    }
}

/// What a command comes to, given the outcome of its statement: the reply to its caller, and the
/// failure to report. An outcome of the wrong kind comes to nothing.
pub fn answer(command: WorkLockManagerCommand, outcome: StatementOutcome) -> (r: (
    Option<Reply>,
    Option<WorkLockEvent>,
))
    ensures
        is_answer(command, outcome, r.0, r.1),
{
    match command {
        WorkLockManagerCommand::AcquireLock { work_key } => {
            match outcome {
                StatementOutcome::Worker(result) => {
                    let reply = match acquire_result(result) {
                        Ok(Some(worker_id)) => Ok(worker_id),
                        Ok(None) => Err(AcquireLockError::WorkAlreadyLocked(work_key)),
                        Err(error) => Err(AcquireLockError::from(error)),
                    };
                    (Some(Reply::Acquire(reply)), None)
                },
                StatementOutcome::Keys(_) => (None, None),
            }
        },
        WorkLockManagerCommand::KeepLockAlive { work_key, worker_id } => {
            match outcome {
                StatementOutcome::Keys(result) => {
                    let reply = match keep_alive_result(&work_key, worker_id, result) {
                        Ok(()) => Ok(()),
                        Err(DatabaseError::FailedPrecondition(message)) => Err(
                            KeepAliveError::LockLost(message),
                        ),
                        Err(error) => Err(KeepAliveError::from(error)),
                    };
                    (Some(Reply::KeepAlive(reply)), None)
                },
                StatementOutcome::Worker(_) => (None, None),
            }
        },
        WorkLockManagerCommand::ReleaseLock { work_key, worker_id } => {
            match outcome {
                StatementOutcome::Keys(result) => {
                    match release_result(&work_key, worker_id, result) {
                        Ok(()) => (None, None),
                        Err(error) => {
                            let event = WorkLockReleaseFailed::new(work_key, &error);
                            (None, Some(WorkLockEvent::ReleaseFailed(event)))
                        },
                    }
                },
                StatementOutcome::Worker(_) => (None, None),
            }
        },
    }
}

/// What the loop is waiting for. All states but `Receiving`, `Reacquiring` and `Stopped` hold the
/// reserved connection; `Receiving` says whether it does.
#[derive(Debug)]
pub enum ManagerState {
    /// The next command.
    Receiving { connected: bool },
    /// The health of the reserved connection.
    Checking { command: WorkLockManagerCommand },
    /// Another connection from the pool.
    Reacquiring { command: WorkLockManagerCommand },
    /// The health of the connection that the pool gave.
    CheckingNew { command: WorkLockManagerCommand },
    /// The outcome of the command's statement.
    Executing { command: WorkLockManagerCommand },
    /// Nothing.
    Stopped,
}

/// What the loop is told.
#[derive(Debug)]
pub enum ManagerEvent {
    /// The next command, or `None` once all handles are gone.
    Received(Option<WorkLockManagerCommand>),
    /// What [`HEALTH_SQL`] gave, and whether the caller that waits for the command's reply has
    /// given up.
    Health { read_only: Result<bool, String>, caller_gone: bool },
    /// What the pool gave.
    Connected(Result<(), String>),
    /// What the command's statement gave.
    Executed(StatementOutcome),
}

/// What the loop is to do next.
#[derive(Debug)]
pub enum NextStep {
    Receive,
    CheckHealth,
    AcquireConnection,
    Execute(Statement),
    /// The event was not the one that the loop waits for: wait on.
    KeepWaiting,
    Stop,
}

/// What the loop is to do, in this order.
#[derive(Debug)]
pub struct ManagerAction {
    /// Close the reserved connection, rather than give it back to the pool, which might hand it
    /// straight out again; it also frees its place in the pool.
    pub close_connection: bool,
    /// Send the reply to the command's caller. Without one, the caller of a finished command
    /// learns that the reply will not come.
    pub reply: Option<Reply>,
    /// Report the failure.
    pub report: Option<WorkLockEvent>,
    pub next: NextStep,
}

/// A connection is fit for the manager if it answers and can write.
pub open spec fn is_healthy(read_only: Result<bool, String>) -> bool {
    read_only == Ok::<bool, String>(false)
}

/// Is the connection fit for the manager? It is if it answers, and is not inside a read-only
/// transaction.
pub fn connection_is_healthy(read_only: &Result<bool, String>) -> (r: bool)
    ensures
        r == is_healthy(*read_only),
{
    match read_only {
        Ok(read_only) => !*read_only,
        Err(_) => false,
    }
}

impl ManagerState {
    /// The loop holds a connection in this state.
    pub open spec fn holds_connection(self) -> bool {
        match self {
            ManagerState::Receiving { connected } => connected,
            ManagerState::Checking { .. } => true,
            ManagerState::Reacquiring { .. } => false,
            ManagerState::CheckingNew { .. } => true,
            ManagerState::Executing { .. } => true,
            ManagerState::Stopped => false,
        }
    }
}

/// The action does nothing besides the next step.
pub open spec fn only(action: ManagerAction, next: NextStep) -> bool {
    action == (ManagerAction { close_connection: false, reply: None, report: None, next })
}

/// The action closes the connection, and does nothing else besides the next step.
pub open spec fn closing(action: ManagerAction, next: NextStep) -> bool {
    action == (ManagerAction { close_connection: true, reply: None, report: None, next })
}

/// With a healthy connection a command is executed, unless it is an acquire whose caller is gone.
pub open spec fn is_dispatch(
    command: WorkLockManagerCommand,
    caller_gone: bool,
    keepalive_timeout: Duration,
    next: ManagerState,
    action: ManagerAction,
) -> bool {
    if command is AcquireLock && caller_gone {
        next == (ManagerState::Receiving { connected: true }) && only(action, NextStep::Receive)
    } else {
        next == (ManagerState::Executing { command }) && only(
            action,
            NextStep::Execute(command.spec_statement(keepalive_timeout)),
        )
    }
}

/// From `state`, the event leads to the state `next`, with `action` to be done.
pub open spec fn is_step(
    state: ManagerState,
    event: ManagerEvent,
    keepalive_timeout: Duration,
    next: ManagerState,
    action: ManagerAction,
) -> bool {
    match (state, event) {
        (ManagerState::Receiving { .. }, ManagerEvent::Received(None)) => next
            == ManagerState::Stopped && only(action, NextStep::Stop),
        (ManagerState::Receiving { connected }, ManagerEvent::Received(Some(command))) => {
            if connected {
                next == (ManagerState::Checking { command }) && only(action, NextStep::CheckHealth)
            } else {
                next == (ManagerState::Reacquiring { command }) && only(
                    action,
                    NextStep::AcquireConnection,
                )
            }
        },
        (ManagerState::Checking { command }, ManagerEvent::Health { read_only, caller_gone }) => {
            if is_healthy(read_only) {
                is_dispatch(command, caller_gone, keepalive_timeout, next, action)
            } else {
                next == (ManagerState::Reacquiring { command }) && closing(
                    action,
                    NextStep::AcquireConnection,
                )
            }
        },
        (ManagerState::Reacquiring { command }, ManagerEvent::Connected(result)) => {
            if result is Ok {
                next == (ManagerState::CheckingNew { command }) && only(
                    action,
                    NextStep::CheckHealth,
                )
            } else {
                next == (ManagerState::Receiving { connected: false }) && only(
                    action,
                    NextStep::Receive,
                )
            }
        },
        (ManagerState::CheckingNew { command }, ManagerEvent::Health { read_only, caller_gone }) => {
            if is_healthy(read_only) {
                is_dispatch(command, caller_gone, keepalive_timeout, next, action)
            } else {
                next == (ManagerState::Receiving { connected: false }) && closing(
                    action,
                    NextStep::Receive,
                )
            }
        },
        (ManagerState::Executing { command }, ManagerEvent::Executed(outcome)) => {
            if command.fits(outcome) {
                &&& next == (ManagerState::Receiving { connected: true })
                &&& !action.close_connection
                &&& action.next == NextStep::Receive
                &&& is_answer(command, outcome, action.reply, action.report)
            } else {
                next == state && only(action, NextStep::KeepWaiting)
            }
        },
        _ => next == state && only(action, NextStep::KeepWaiting),
    }
}

fn proceed(next: NextStep) -> (r: ManagerAction)
    ensures
        only(r, next),
{
    ManagerAction { close_connection: false, reply: None, report: None, next }
}

fn close_and(next: NextStep) -> (r: ManagerAction)
    ensures
        closing(r, next),
{
    ManagerAction { close_connection: true, reply: None, report: None, next }
}

fn dispatch(
    command: WorkLockManagerCommand,
    caller_gone: bool,
    keepalive_timeout: Duration,
) -> (r: (ManagerState, ManagerAction))
    ensures
        is_dispatch(command, caller_gone, keepalive_timeout, r.0, r.1),
{
    let wanted: bool = match &command {
        WorkLockManagerCommand::AcquireLock { .. } => !caller_gone,
        _ => true,
    };
    if wanted {
        let statement = command.statement(keepalive_timeout);
        (ManagerState::Executing { command }, proceed(NextStep::Execute(statement)))
    } else {
        (ManagerState::Receiving { connected: true }, proceed(NextStep::Receive))
    }
}

/// One step of the loop.
pub fn step(state: ManagerState, event: ManagerEvent, keepalive_timeout: Duration) -> (r: (
    ManagerState,
    ManagerAction,
))
    ensures
        is_step(state, event, keepalive_timeout, r.0, r.1),
{
    match (state, event) {
        (ManagerState::Receiving { .. }, ManagerEvent::Received(None)) => {
            (ManagerState::Stopped, proceed(NextStep::Stop))
        },
        (ManagerState::Receiving { connected }, ManagerEvent::Received(Some(command))) => {
            if connected {
                (ManagerState::Checking { command }, proceed(NextStep::CheckHealth))
            } else {
                (ManagerState::Reacquiring { command }, proceed(NextStep::AcquireConnection))
            }
        },
        (ManagerState::Checking { command }, ManagerEvent::Health { read_only, caller_gone }) => {
            if connection_is_healthy(&read_only) {
                dispatch(command, caller_gone, keepalive_timeout)
            } else {
                (ManagerState::Reacquiring { command }, close_and(NextStep::AcquireConnection))
            }
        },
        (ManagerState::Reacquiring { command }, ManagerEvent::Connected(result)) => {
            match result {
                Ok(()) => (ManagerState::CheckingNew { command }, proceed(NextStep::CheckHealth)),
                // The command's reply is dropped, so its caller gets an error. A release that is
                // lost here is made up for by the time-out of the lock.
                Err(_) => (ManagerState::Receiving { connected: false }, proceed(NextStep::Receive)),
            }
        },
        (ManagerState::CheckingNew { command }, ManagerEvent::Health { read_only, caller_gone }) => {
            if connection_is_healthy(&read_only) {
                dispatch(command, caller_gone, keepalive_timeout)
            } else {
                (ManagerState::Receiving { connected: false }, close_and(NextStep::Receive))
            }
        },
        (ManagerState::Executing { command }, ManagerEvent::Executed(outcome)) => {
            let fits: bool = match (&command, &outcome) {
                (WorkLockManagerCommand::AcquireLock { .. }, StatementOutcome::Worker(_)) => true,
                (WorkLockManagerCommand::AcquireLock { .. }, StatementOutcome::Keys(_)) => false,
                (_, StatementOutcome::Worker(_)) => false,
                (_, StatementOutcome::Keys(_)) => true,
            };
            if fits {
                let (reply, report) = answer(command, outcome);
                (
                    ManagerState::Receiving { connected: true },
                    ManagerAction { close_connection: false, reply, report, next: NextStep::Receive },
                )
            } else {
                (ManagerState::Executing { command }, proceed(NextStep::KeepWaiting))
            }
        },
        (state, _) => (state, proceed(NextStep::KeepWaiting)),
    }
}

/// Serves a command on a table in memory: runs its statement and answers it.
pub fn serve(
    table: &mut LockTable,
    command: WorkLockManagerCommand,
    keepalive_timeout: Duration,
    now: Timestamp,
    fresh: WorkerId,
) -> (r: (Option<Reply>, Option<WorkLockEvent>))
    ensures
        crate::work_lock::laws::served(
            old(table)@,
            command,
            keepalive_timeout,
            now,
            fresh,
            final(table)@,
            r.0,
            r.1,
        ),
{
    let outcome = table.execute(&command.statement(keepalive_timeout), now, fresh);
    answer(command, outcome)
}

} // verus!
