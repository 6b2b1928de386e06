//! What the manager loop does with a command, told by the command and the events themselves.

use crate::time::{Duration, Timestamp};
use crate::work_lock::errors::{AcquireLockError, WorkKey, WorkerId};
use crate::work_lock::events::WorkLockEvent;
use crate::work_lock::lock_table::LockTable;
use crate::work_lock::manager::{
    ManagerAction, ManagerEvent, ManagerState, Reply, WorkLockManagerCommand,
};
use crate::work_lock::statements::{Statement, StatementOutcome};
use vstd::prelude::*;

verus! {

/// The connection answers, and can write.
pub open spec fn can_write(read_only: Result<bool, String>) -> bool {
    read_only is Ok && read_only->Ok_0 == false
}

/// The statement does for the command's key, and for its worker, what the command asks.
pub open spec fn is_statement_for(
    statement: Statement,
    command: WorkLockManagerCommand,
    timeout: Duration,
) -> bool {
    &&& command matches WorkLockManagerCommand::AcquireLock { work_key } ==> {
        &&& statement is Acquire
        &&& statement->Acquire_work_key == work_key
        &&& statement->Acquire_keepalive_timeout == timeout
    }
    &&& command matches WorkLockManagerCommand::KeepLockAlive { work_key, worker_id } ==> {
        &&& statement is KeepAlive
        &&& statement->KeepAlive_work_key == work_key
        &&& statement->KeepAlive_worker_id == worker_id
    }
    &&& command matches WorkLockManagerCommand::ReleaseLock { work_key, worker_id } ==> {
        &&& statement is Release
        &&& statement->Release_work_key == work_key
        &&& statement->Release_worker_id == worker_id
    }
}

/// Nothing is replied or reported.
pub open spec fn is_silent(action: ManagerAction) -> bool {
    action.reply is None && action.report is None
}

/// A connection is fit exactly when it answers that it is not read-only.
pub proof fn law_a_connection_is_fit_if_it_can_write(read_only: Result<bool, String>, r: bool)
    requires
        call_ensures(crate::work_lock::manager::connection_is_healthy, (&read_only,), r),
    ensures
        r <==> can_write(read_only),
{
}

/// A command is served by the statement of its own kind, with its own values.
pub proof fn law_a_command_has_its_own_statement(
    command: WorkLockManagerCommand,
    timeout: Duration,
    r: Statement,
)
    requires
        call_ensures(WorkLockManagerCommand::statement, (&command, timeout), r),
    ensures
        is_statement_for(r, command, timeout),
{
}

/// The next command is taken in hand: with a connection its health is checked first, without one
/// another is asked for. When there are no more commands the loop stops.
pub proof fn law_the_next_command_is_taken_in_hand(
    connected: bool,
    command: WorkLockManagerCommand,
    timeout: Duration,
    r: (ManagerState, ManagerAction),
    ended: (ManagerState, ManagerAction),
)
    requires
        call_ensures(
            crate::work_lock::manager::step,
            (ManagerState::Receiving { connected }, ManagerEvent::Received(Some(command)), timeout),
            r,
        ),
        call_ensures(
            crate::work_lock::manager::step,
            (ManagerState::Receiving { connected }, ManagerEvent::Received(None), timeout),
            ended,
        ),
    ensures
        !r.1.close_connection,
        is_silent(r.1),
        connected ==> {
            &&& r.0 is Checking
            &&& r.0->Checking_command == command
            &&& r.1.next is CheckHealth
        },
        !connected ==> {
            &&& r.0 is Reacquiring
            &&& r.0->Reacquiring_command == command
            &&& r.1.next is AcquireConnection
        },
        ended.0 is Stopped,
        !ended.1.close_connection,
        is_silent(ended.1),
        ended.1.next is Stop,
{
}

/// The command is run on its statement, or dropped if it is a request that nobody waits for.
pub open spec fn is_run_or_dropped(
    command: WorkLockManagerCommand,
    caller_gone: bool,
    timeout: Duration,
    r: (ManagerState, ManagerAction),
) -> bool {
    &&& !r.1.close_connection
    &&& is_silent(r.1)
    &&& command is AcquireLock && caller_gone ==> {
        &&& r.0 is Receiving
        &&& r.0->connected
        &&& r.1.next is Receive
    }
    &&& !(command is AcquireLock && caller_gone) ==> {
        &&& r.0 is Executing
        &&& r.0->Executing_command == command
        &&& r.1.next is Execute
        &&& is_statement_for(r.1.next->Execute_0, command, timeout)
    }
}

/// On a connection that can write a command is run, old or new; a release and a keep-alive even if
/// nobody waits for the reply. Any other connection is closed: the first one is replaced, with the
/// command kept in hand, and after the second the command is dropped.
pub proof fn law_a_command_is_run_on_a_connection_that_can_write(
    command: WorkLockManagerCommand,
    read_only: Result<bool, String>,
    caller_gone: bool,
    timeout: Duration,
    first: (ManagerState, ManagerAction),
    second: (ManagerState, ManagerAction),
)
    requires
        call_ensures(
            crate::work_lock::manager::step,
            (
                ManagerState::Checking { command },
                ManagerEvent::Health { read_only, caller_gone },
                timeout,
            ),
            first,
        ),
        call_ensures(
            crate::work_lock::manager::step,
            (
                ManagerState::CheckingNew { command },
                ManagerEvent::Health { read_only, caller_gone },
                timeout,
            ),
            second,
        ),
    ensures
        can_write(read_only) ==> is_run_or_dropped(command, caller_gone, timeout, first),
        can_write(read_only) ==> is_run_or_dropped(command, caller_gone, timeout, second),
        !can_write(read_only) ==> {
            &&& first.1.close_connection
            &&& is_silent(first.1)
            &&& first.0 is Reacquiring
            &&& first.0->Reacquiring_command == command
            &&& first.1.next is AcquireConnection
            &&& second.1.close_connection
            &&& is_silent(second.1)
            &&& second.0 is Receiving
            &&& !second.0->connected
            &&& second.1.next is Receive
        },
{
}

/// A connection from the pool is checked, with the command still in hand; without one the command
/// is dropped, and the loop goes on without a connection.
pub proof fn law_a_connection_from_the_pool_is_checked(
    command: WorkLockManagerCommand,
    error: String,
    timeout: Duration,
    r: (ManagerState, ManagerAction),
    failed: (ManagerState, ManagerAction),
)
    requires
        call_ensures(
            crate::work_lock::manager::step,
            (ManagerState::Reacquiring { command }, ManagerEvent::Connected(Ok(())), timeout),
            r,
        ),
        call_ensures(
            crate::work_lock::manager::step,
            (ManagerState::Reacquiring { command }, ManagerEvent::Connected(Err(error)), timeout),
            failed,
        ),
    ensures
        r.0 is CheckingNew,
        r.0->CheckingNew_command == command,
        r.1.next is CheckHealth,
        !r.1.close_connection,
        is_silent(r.1),
        failed.0 is Receiving,
        !failed.0->connected,
        failed.1.next is Receive,
        !failed.1.close_connection,
        is_silent(failed.1),
{
}

/// Whatever a statement gave, a failure too, its command is answered and the loop keeps its
/// connection and takes the next command. What another kind of statement gives is not awaited.
pub proof fn law_after_every_outcome_the_loop_goes_on(
    command: WorkLockManagerCommand,
    outcome: StatementOutcome,
    timeout: Duration,
    r: (ManagerState, ManagerAction),
)
    requires
        call_ensures(
            crate::work_lock::manager::step,
            (ManagerState::Executing { command }, ManagerEvent::Executed(outcome), timeout),
            r,
        ),
    ensures
        !r.1.close_connection,
        (command is AcquireLock <==> outcome is Worker) ==> {
            &&& r.0 is Receiving
            &&& r.0->connected
            &&& r.1.next is Receive
        },
        !(command is AcquireLock <==> outcome is Worker) ==> {
            &&& r.0 is Executing
            &&& r.0->Executing_command == command
            &&& r.1.next is KeepWaiting
            &&& is_silent(r.1)
        },
{
}

/// An event is the one that the state waits for.
pub open spec fn is_awaited(state: ManagerState, event: ManagerEvent) -> bool {
    match state {
        ManagerState::Receiving { .. } => event is Received,
        ManagerState::Checking { .. } => event is Health,
        ManagerState::Reacquiring { .. } => event is Connected,
        ManagerState::CheckingNew { .. } => event is Health,
        ManagerState::Executing { command } => event is Executed && (command is AcquireLock
            <==> event->Executed_0 is Worker),
        ManagerState::Stopped => false,
    }
}

/// An event that is not awaited changes nothing, and one that is moves the loop on.
pub proof fn law_only_awaited_events_count(
    state: ManagerState,
    event: ManagerEvent,
    timeout: Duration,
    r: (ManagerState, ManagerAction),
)
    requires
        call_ensures(crate::work_lock::manager::step, (state, event, timeout), r),
    ensures
        r.1.next is KeepWaiting <==> !is_awaited(state, event),
        !is_awaited(state, event) ==> {
            &&& r.0 == state
            &&& !r.1.close_connection
            &&& is_silent(r.1)
        },
{
}

/// A request is answered with the worker that was named, or that the work is locked, or the
/// driver's report on the statement.
pub open spec fn answers_a_request(
    work_key: WorkKey,
    result: Result<Option<WorkerId>, String>,
    sql: Seq<char>,
    reply: Option<Reply>,
) -> bool {
    &&& reply is Some
    &&& reply->0 is Acquire
    &&& result matches Ok(Some(worker_id)) ==> {
        &&& reply->0->Acquire_0 is Ok
        &&& reply->0->Acquire_0->Ok_0 == worker_id
    }
    &&& result matches Ok(None) ==> {
        &&& reply->0->Acquire_0 is Err
        &&& reply->0->Acquire_0->Err_0 is WorkAlreadyLocked
        &&& reply->0->Acquire_0->Err_0->WorkAlreadyLocked_0 == work_key
    }
    &&& result matches Err(error) ==> {
        &&& reply->0->Acquire_0 is Err
        &&& reply->0->Acquire_0->Err_0 is Database
        &&& crate::work_lock::table_laws::is_report_on(
            reply->0->Acquire_0->Err_0->Database_0,
            sql,
            error,
        )
    }
}

/// A keep-alive is answered with a plain yes if a row was found, with a loss if none was, and with
/// the driver's report on the statement if that failed.
pub open spec fn answers_a_keepalive(
    work_key: WorkKey,
    worker_id: WorkerId,
    result: Result<Vec<WorkKey>, String>,
    sql: Seq<char>,
    reply: Option<Reply>,
) -> bool {
    &&& reply is Some
    &&& reply->0 is KeepAlive
    &&& reply->0->KeepAlive_0 is Ok <==> result is Ok && result->Ok_0@.len() > 0
    &&& result is Ok && result->Ok_0@.len() == 0 ==> {
        &&& reply->0->KeepAlive_0->Err_0 is LockLost
        &&& reply->0->KeepAlive_0->Err_0->LockLost_0@
            == "BUG: Tried to keep alive nonexistent lock for work_key="@ + work_key@
            + ", worker_id="@ + crate::ids::hyphenated(worker_id.bits)
            + " worker likely was not sending keep-alives frequently enough."@
    }
    &&& result matches Err(error) ==> {
        &&& reply->0->KeepAlive_0->Err_0 is Database
        &&& crate::work_lock::table_laws::is_report_on(
            reply->0->KeepAlive_0->Err_0->Database_0,
            sql,
            error,
        )
    }
}

/// A release is reported exactly when no row was found, as a loss, or the statement failed, as a
/// failure of the database.
pub open spec fn reports_a_release(
    work_key: WorkKey,
    worker_id: WorkerId,
    result: Result<Vec<WorkKey>, String>,
    report: Option<WorkLockEvent>,
) -> bool {
    &&& report is None <==> result is Ok && result->Ok_0@.len() > 0
    &&& report is Some ==> {
        &&& report->0 is ReleaseFailed
        &&& report->0->ReleaseFailed_0.operation is Release
        &&& report->0->ReleaseFailed_0.work_key == work_key
    }
    &&& result is Ok && result->Ok_0@.len() == 0 ==> {
        &&& report->0->ReleaseFailed_0.failure is LockLost
        &&& report->0->ReleaseFailed_0.error@
            == "Tried to release nonexistent lock for work_key="@ + work_key@ + ", worker_id="@
            + crate::ids::hyphenated(worker_id.bits)
    }
    &&& result matches Err(error) ==> {
        &&& report->0->ReleaseFailed_0.failure is Database
        &&& report->0->ReleaseFailed_0.error@ == error@
    }
}

/// What a command is answered, and what is reported, given what its statement gave.
pub open spec fn is_answered(
    command: WorkLockManagerCommand,
    outcome: StatementOutcome,
    sql: Seq<char>,
    reply: Option<Reply>,
    report: Option<WorkLockEvent>,
) -> bool {
    &&& command matches WorkLockManagerCommand::AcquireLock { work_key } ==> {
        &&& report is None
        &&& answers_a_request(work_key, outcome->Worker_0, sql, reply)
    }
    &&& command matches WorkLockManagerCommand::KeepLockAlive { work_key, worker_id } ==> {
        &&& report is None
        &&& answers_a_keepalive(work_key, worker_id, outcome->Keys_0, sql, reply)
    }
    &&& command matches WorkLockManagerCommand::ReleaseLock { work_key, worker_id } ==> {
        &&& reply is None
        &&& reports_a_release(work_key, worker_id, outcome->Keys_0, report)
    }
}

/// A command is answered by what its statement gave, in the loop as well as outside of it. What
/// another kind of statement gives is no answer.
pub proof fn law_a_command_is_answered_by_its_outcome(
    command: WorkLockManagerCommand,
    outcome: StatementOutcome,
    timeout: Duration,
    statement: Statement,
    sql: &'static str,
    r: (Option<Reply>, Option<WorkLockEvent>),
    stepped: (ManagerState, ManagerAction),
)
    requires
        call_ensures(WorkLockManagerCommand::statement, (&command, timeout), statement),
        call_ensures(Statement::sql, (&statement,), sql),
        call_ensures(crate::work_lock::manager::answer, (command, outcome), r),
        call_ensures(
            crate::work_lock::manager::step,
            (ManagerState::Executing { command }, ManagerEvent::Executed(outcome), timeout),
            stepped,
        ),
    ensures
        (command is AcquireLock <==> outcome is Worker) ==> {
            &&& is_answered(command, outcome, sql@, r.0, r.1)
            &&& is_answered(command, outcome, sql@, stepped.1.reply, stepped.1.report)
        },
        !(command is AcquireLock <==> outcome is Worker) ==> r.0 is None && r.1 is None,
{
}

/// A request served on a table takes the key exactly when it has no living row, and tells the
/// worker; otherwise it tells that the work is locked, and changes nothing.
pub proof fn law_a_served_request_takes_a_free_key(
    table: &mut LockTable,
    work_key: WorkKey,
    timeout: Duration,
    now: Timestamp,
    fresh: WorkerId,
    r: (Option<Reply>, Option<WorkLockEvent>),
)
    requires
        call_ensures(
            crate::work_lock::manager::serve,
            (table, WorkLockManagerCommand::AcquireLock { work_key }, timeout, now, fresh),
            r,
        ),
        crate::work_lock::table_laws::can_be_bound(timeout),
    ensures
        r.1 is None,
        r.0 is Some,
        r.0->0 is Acquire,
        crate::work_lock::table_laws::keeps_other_rows(old(table)@, final(table)@, work_key@),
        crate::work_lock::table_laws::can_be_taken(old(table)@, work_key@, timeout, now) ==> {
            &&& r.0->0->Acquire_0 == Ok::<WorkerId, AcquireLockError>(fresh)
            &&& crate::work_lock::table_laws::has_fresh_row(final(table)@, work_key@, fresh, now)
        },
        !crate::work_lock::table_laws::can_be_taken(old(table)@, work_key@, timeout, now) ==> {
            &&& r.0->0->Acquire_0 is Err
            &&& r.0->0->Acquire_0->Err_0 is WorkAlreadyLocked
            &&& r.0->0->Acquire_0->Err_0->WorkAlreadyLocked_0 == work_key
            &&& crate::work_lock::table_laws::keeps_all_rows(old(table)@, final(table)@)
        },
{
}

/// With a time-out that cannot be bound every request fails in the database, and changes nothing.
pub proof fn law_a_request_without_an_interval_fails(
    table: &mut LockTable,
    work_key: WorkKey,
    timeout: Duration,
    now: Timestamp,
    fresh: WorkerId,
    r: (Option<Reply>, Option<WorkLockEvent>),
)
    requires
        call_ensures(
            crate::work_lock::manager::serve,
            (table, WorkLockManagerCommand::AcquireLock { work_key }, timeout, now, fresh),
            r,
        ),
        !crate::work_lock::table_laws::can_be_bound(timeout),
    ensures
        r.1 is None,
        r.0 is Some,
        r.0->0 is Acquire,
        r.0->0->Acquire_0 is Err,
        r.0->0->Acquire_0->Err_0 is Database,
        crate::work_lock::table_laws::keeps_all_rows(old(table)@, final(table)@),
{
}

/// A keep-alive and a release served on a table are for the row of their own worker: they renew or
/// remove it, and the one is told so. Without it nothing changes; the one is told that the lock is
/// lost, and for the other that is reported.
pub proof fn law_a_served_holder_keeps_or_drops_its_row(
    kept: &mut LockTable,
    dropped: &mut LockTable,
    work_key: WorkKey,
    worker_id: WorkerId,
    timeout: Duration,
    now: Timestamp,
    fresh: WorkerId,
    r: (Option<Reply>, Option<WorkLockEvent>),
    released: (Option<Reply>, Option<WorkLockEvent>),
)
    requires
        call_ensures(
            crate::work_lock::manager::serve,
            (
                kept,
                WorkLockManagerCommand::KeepLockAlive { work_key, worker_id },
                timeout,
                now,
                fresh,
            ),
            r,
        ),
        call_ensures(
            crate::work_lock::manager::serve,
            (
                dropped,
                WorkLockManagerCommand::ReleaseLock { work_key, worker_id },
                timeout,
                now,
                fresh,
            ),
            released,
        ),
    ensures
        r.1 is None,
        r.0 is Some,
        r.0->0 is KeepAlive,
        crate::work_lock::table_laws::keeps_other_rows(old(kept)@, final(kept)@, work_key@),
        crate::work_lock::table_laws::has_row(old(kept)@, work_key@, worker_id) ==> {
            &&& r.0->0->KeepAlive_0 is Ok
            &&& crate::work_lock::table_laws::has_row(final(kept)@, work_key@, worker_id)
            &&& final(kept)@[work_key@].last_keepalive == now
            &&& final(kept)@[work_key@].started == old(kept)@[work_key@].started
        },
        !crate::work_lock::table_laws::has_row(old(kept)@, work_key@, worker_id) ==> {
            &&& r.0->0->KeepAlive_0 is Err
            &&& r.0->0->KeepAlive_0->Err_0 is LockLost
            &&& crate::work_lock::table_laws::keeps_all_rows(old(kept)@, final(kept)@)
        },
        released.0 is None,
        crate::work_lock::table_laws::keeps_other_rows(old(dropped)@, final(dropped)@, work_key@),
        crate::work_lock::table_laws::has_row(old(dropped)@, work_key@, worker_id) ==> {
            &&& released.1 is None
            &&& !final(dropped)@.contains_key(work_key@)
        },
        !crate::work_lock::table_laws::has_row(old(dropped)@, work_key@, worker_id) ==> {
            &&& released.1 is Some
            &&& released.1->0 is ReleaseFailed
            &&& released.1->0->ReleaseFailed_0.failure is LockLost
            &&& released.1->0->ReleaseFailed_0.work_key == work_key
            &&& crate::work_lock::table_laws::keeps_all_rows(old(dropped)@, final(dropped)@)
        },
{
}

/// The health of a connection is asked for in these words, and a hundred commands may wait.
pub proof fn law_the_queue_and_the_health_check_are_these()
    ensures
        crate::work_lock::manager::HEALTH_SQL@
            == "SELECT current_setting('transaction_read_only')::bool"@,
        crate::work_lock::manager::COMMAND_BUFFER_SIZE == 100,
{
}

} // verus!
