//! What the lock statements, the answers to commands and the manager loop
//! promise together.

use crate::time::{Duration, Timestamp};
use crate::work_lock::errors::{AcquireLockError, DatabaseError, KeepAliveError, WorkKey, WorkerId};
use crate::work_lock::events::{FailureCounter, WorkLockEvent, WorkLockFailure, WorkLockOperation};
use crate::work_lock::handle::{KeepaliveAction, KeepaliveEvent, KeepaliveState, KeepaliveStep};
use crate::work_lock::lock_table::Locks;
use crate::work_lock::manager::{
    ManagerAction, ManagerEvent, ManagerState, NextStep, Reply, WorkLockManagerCommand,
};
use crate::work_lock::statements::{StatementOutcome, ACQUIRE_SQL};
use vstd::prelude::*;

verus! {

/// Serving `command` turns the rows `before` into `after`, with this reply and report.
pub open spec fn served(
    before: Locks,
    command: WorkLockManagerCommand,
    timeout: Duration,
    now: Timestamp,
    fresh: WorkerId,
    after: Locks,
    reply: Option<Reply>,
    report: Option<WorkLockEvent>,
) -> bool {
    let statement = command.spec_statement(timeout);
    &&& after == crate::work_lock::lock_table::executed(before, statement, now, fresh)
    &&& exists|outcome: StatementOutcome|
        {
            &&& #[trigger] crate::work_lock::lock_table::is_outcome(
                before,
                statement,
                now,
                fresh,
                outcome,
            )
            &&& crate::work_lock::manager::is_answer(command, outcome, reply, report)
        }
}

/// The outcome is the driver's report of a failure.
pub open spec fn is_failure(outcome: StatementOutcome) -> bool {
    match outcome {
        StatementOutcome::Worker(result) => result is Err,
        StatementOutcome::Keys(result) => result is Err,
    }
}

/// The statement of `command` failed: the rows are what they were or, where only the word of its
/// success was lost, what the statement makes of them. The reply and the report tell the failure.
pub open spec fn failed(
    before: Locks,
    command: WorkLockManagerCommand,
    timeout: Duration,
    now: Timestamp,
    fresh: WorkerId,
    after: Locks,
    reply: Option<Reply>,
    report: Option<WorkLockEvent>,
) -> bool {
    let statement = command.spec_statement(timeout);
    &&& after == before || after == crate::work_lock::lock_table::executed(
        before,
        statement,
        now,
        fresh,
    )
    &&& exists|outcome: StatementOutcome|
        {
            &&& is_failure(outcome)
            &&& command.fits(outcome)
            &&& #[trigger] crate::work_lock::manager::is_answer(command, outcome, reply, report)
        }
}

/// A command that was served, with the clock, the fresh worker, and what came of it.
pub struct Served {
    pub command: WorkLockManagerCommand,
    pub now: Timestamp,
    pub fresh: WorkerId,
    pub reply: Option<Reply>,
    pub report: Option<WorkLockEvent>,
    /// The driver reported a failure of the statement.
    pub failed: bool,
}

/// The step turns the rows `before` into `after`.
pub open spec fn is_served_step(
    before: Locks,
    step: Served,
    timeout: Duration,
    after: Locks,
) -> bool {
    if step.failed {
        failed(
            before,
            step.command,
            timeout,
            step.now,
            step.fresh,
            after,
            step.reply,
            step.report,
        )
    } else {
        served(
            before,
            step.command,
            timeout,
            step.now,
            step.fresh,
            after,
            step.reply,
            step.report,
        )
    }
}

/// The steps were served one after the other; `locks[i]` are the rows before step `i`.
pub open spec fn is_history(locks: Seq<Locks>, steps: Seq<Served>, timeout: Duration) -> bool {
    &&& locks.len() == steps.len() + 1
    &&& forall|i: int|
        0 <= i < steps.len() ==> is_served_step(
            locks[i],
            #[trigger] steps[i],
            timeout,
            locks[i + 1],
        )
}

/// A request to acquire succeeds exactly when the key is free, and then names the fresh worker,
/// which holds the key from now on. Otherwise the caller learns that the work is locked, and the
/// rows stay as they were. With a time-out that is no interval every request fails.
pub proof fn law_acquire_succeeds_iff_free(
    before: Locks,
    work_key: WorkKey,
    timeout: Duration,
    now: Timestamp,
    fresh: WorkerId,
    after: Locks,
    reply: Option<Reply>,
    report: Option<WorkLockEvent>,
)
    requires
        served(
            before,
            WorkLockManagerCommand::AcquireLock { work_key },
            timeout,
            now,
            fresh,
            after,
            reply,
            report,
        ),
    ensures
        report is None,
        timeout.is_interval() && crate::work_lock::lock_table::is_free(
            before,
            work_key@,
            timeout,
            now,
        ) ==> {
            &&& reply == Some(Reply::Acquire(Ok(fresh)))
            &&& crate::work_lock::lock_table::is_held_by(after, work_key@, fresh)
            &&& after[work_key@].last_keepalive == now
            &&& after[work_key@].started == now
        },
        timeout.is_interval() && !crate::work_lock::lock_table::is_free(
            before,
            work_key@,
            timeout,
            now,
        ) ==> {
            &&& reply == Some(Reply::Acquire(Err(AcquireLockError::WorkAlreadyLocked(work_key))))
            &&& after == before
        },
        !timeout.is_interval() ==> {
            &&& reply matches Some(
                Reply::Acquire(Err(AcquireLockError::Database(DatabaseError::Query {
                    query,
                    error,
                }))),
            )
            &&& query@ == ACQUIRE_SQL@
            &&& error@ == crate::work_lock::lock_table::bind_complaint(timeout)
            &&& after == before
        },
{
}

/// No command changes the lock on a key that it does not name, not even one that fails.
pub proof fn law_other_keys_are_untouched(
    before: Locks,
    step: Served,
    timeout: Duration,
    after: Locks,
    other: Seq<char>,
)
    requires
        is_served_step(before, step, timeout, after),
        other != step.command.key(),
    ensures
        after.contains_key(other) == before.contains_key(other),
        before.contains_key(other) ==> after[other] == before[other],
{
}

/// A keep-alive of the holder is acknowledged and renews the lock, which is then not free until
/// more than the time-out has passed. One of anybody else finds the lock lost and changes nothing.
pub proof fn law_keep_alive_renews_the_holder_only(
    before: Locks,
    work_key: WorkKey,
    worker_id: WorkerId,
    timeout: Duration,
    now: Timestamp,
    fresh: WorkerId,
    after: Locks,
    reply: Option<Reply>,
    report: Option<WorkLockEvent>,
    later: Timestamp,
)
    requires
        served(
            before,
            WorkLockManagerCommand::KeepLockAlive { work_key, worker_id },
            timeout,
            now,
            fresh,
            after,
            reply,
            report,
        ),
    ensures
        report is None,
        crate::work_lock::lock_table::is_held_by(before, work_key@, worker_id) ==> {
            &&& reply == Some(Reply::KeepAlive(Ok(())))
            &&& crate::work_lock::lock_table::is_held_by(after, work_key@, worker_id)
            &&& after[work_key@].started == before[work_key@].started
            &&& crate::work_lock::lock_table::is_free(after, work_key@, timeout, later) <==> now
                + timeout.micros() < later
        },
        !crate::work_lock::lock_table::is_held_by(before, work_key@, worker_id) ==> {
            &&& reply matches Some(Reply::KeepAlive(Err(KeepAliveError::LockLost(message))))
            &&& message@ == crate::work_lock::statements::keep_alive_complaint(work_key@, worker_id)
            &&& after == before
        },
{
}

/// A release of the holder removes its lock without a word. One of anybody else changes nothing,
/// and is reported as a lost lock.
pub proof fn law_release_removes_the_holder_only(
    before: Locks,
    work_key: WorkKey,
    worker_id: WorkerId,
    timeout: Duration,
    now: Timestamp,
    fresh: WorkerId,
    after: Locks,
    reply: Option<Reply>,
    report: Option<WorkLockEvent>,
)
    requires
        served(
            before,
            WorkLockManagerCommand::ReleaseLock { work_key, worker_id },
            timeout,
            now,
            fresh,
            after,
            reply,
            report,
        ),
    ensures
        reply is None,
        crate::work_lock::lock_table::is_held_by(before, work_key@, worker_id) ==> {
            &&& report is None
            &&& after == before.remove(work_key@)
        },
        !crate::work_lock::lock_table::is_held_by(before, work_key@, worker_id) ==> {
            &&& report matches Some(WorkLockEvent::ReleaseFailed(failed))
            &&& failed.failure == WorkLockFailure::LockLost
            &&& failed.work_key == work_key
            &&& after == before
        },
{
}

/// A request for the key is refused, because the work is locked; or because the statement failed,
/// as it always does with a time-out that is no interval.
pub open spec fn is_refusal(step: Served, work_key: Seq<char>, timeout: Duration) -> bool {
    &&& step.reply matches Some(Reply::Acquire(Err(error)))
    &&& if step.failed || !timeout.is_interval() {
        error is Database
    } else {
        error matches AcquireLockError::WorkAlreadyLocked(refused) && refused@ == work_key
    }
}

/// Exclusive ownership: from the last keep-alive of a holder until its time-out, whatever is
/// served and whatever fails, the holder stays the holder unless it releases, and every request of another worker
/// for the key is refused.
pub proof fn law_a_held_lock_excludes_others(
    locks: Seq<Locks>,
    steps: Seq<Served>,
    timeout: Duration,
    work_key: Seq<char>,
    holder: WorkerId,
)
    requires
        is_history(locks, steps, timeout),
        crate::work_lock::lock_table::is_held_by(locks[0], work_key, holder),
        forall|i: int|
            0 <= i < steps.len() ==> {
                let renewed = locks[0][work_key].last_keepalive;
                renewed <= (#[trigger] steps[i]).now <= renewed + timeout.micros()
            },
        forall|i: int|
            0 <= i < steps.len() ==> !((#[trigger] steps[i]).command is ReleaseLock
                && steps[i].command.key() == work_key
                && steps[i].command->ReleaseLock_worker_id == holder),
    ensures
        crate::work_lock::lock_table::is_held_by(locks.last(), work_key, holder),
        locks.last()[work_key].last_keepalive >= locks[0][work_key].last_keepalive,
        forall|i: int|
            0 <= i < steps.len() && (#[trigger] steps[i]).command is AcquireLock
                && steps[i].command.key() == work_key ==> is_refusal(steps[i], work_key, timeout),
    decreases steps.len(),
{
    if steps.len() > 0 {
        let n = steps.len() - 1;
        let init_locks = locks.drop_last();
        let init_steps = steps.drop_last();
        assert forall|i: int| 0 <= i < init_steps.len() implies #[trigger] init_steps[i] == steps[i] by {}
        assert(is_history(init_locks, init_steps, timeout)) by {
            assert forall|i: int| 0 <= i < init_steps.len() implies is_served_step(
                init_locks[i],
                #[trigger] init_steps[i],
                timeout,
                init_locks[i + 1],
            ) by {
                assert(init_steps[i] == steps[i]);
            }
        }
        law_a_held_lock_excludes_others(init_locks, init_steps, timeout, work_key, holder);
        let step = steps[n];
        assert(init_locks.last() == locks[n]);
        assert(locks.last() == locks[n + 1]);
        if step.command.key() != work_key {
            law_other_keys_are_untouched(locks[n], step, timeout, locks[n + 1], work_key);
        }
        assert forall|i: int|
            0 <= i < steps.len() && (#[trigger] steps[i]).command is AcquireLock
                && steps[i].command.key() == work_key implies is_refusal(steps[i], work_key, timeout) by {
            if i < n {
                assert(init_steps[i] == steps[i]);
            }
        }
    }
}

/// From step `from` on, the holder does not release the key, and the lock has not expired whenever
/// somebody asks for it.
pub open spec fn is_left_alone(
    locks: Seq<Locks>,
    steps: Seq<Served>,
    timeout: Duration,
    work_key: Seq<char>,
    holder: WorkerId,
    from: int,
) -> bool {
    forall|i: int|
        from <= i < steps.len() && (#[trigger] steps[i]).command.key() == work_key ==> {
            &&& steps[i].command is AcquireLock ==> !crate::work_lock::lock_table::expired(
                locks[i][work_key],
                timeout,
                steps[i].now,
            )
            &&& steps[i].command is ReleaseLock ==> steps[i].command->ReleaseLock_worker_id
                != holder
        }
}

/// Exclusive ownership for as long as the work takes: while the lock has not expired whenever
/// somebody asks for it, because its holder's keep-alives come in time, the holder stays the
/// holder unless it releases, and every request of another worker for the key is refused. That
/// holds whatever fails.
pub proof fn law_a_lock_that_is_kept_alive_excludes_others(
    locks: Seq<Locks>,
    steps: Seq<Served>,
    timeout: Duration,
    work_key: Seq<char>,
    holder: WorkerId,
)
    requires
        is_history(locks, steps, timeout),
        crate::work_lock::lock_table::is_held_by(locks[0], work_key, holder),
        is_left_alone(locks, steps, timeout, work_key, holder, 0),
    ensures
        forall|i: int|
            0 <= i < locks.len() ==> crate::work_lock::lock_table::is_held_by(
                #[trigger] locks[i],
                work_key,
                holder,
            ),
        forall|i: int|
            0 <= i < steps.len() && (#[trigger] steps[i]).command is AcquireLock
                && steps[i].command.key() == work_key ==> is_refusal(steps[i], work_key, timeout),
{
    assert forall|i: int| 0 <= i < locks.len() implies crate::work_lock::lock_table::is_held_by(
        #[trigger] locks[i],
        work_key,
        holder,
    ) by {
        lemma_stays_held(locks, steps, timeout, work_key, holder, 0, i);
    }
    assert forall|i: int|
        0 <= i < steps.len() && (#[trigger] steps[i]).command is AcquireLock
            && steps[i].command.key() == work_key implies is_refusal(steps[i], work_key, timeout) by {
        assert(crate::work_lock::lock_table::is_held_by(locks[i], work_key, holder));
    }
}

proof fn lemma_stays_held(
    locks: Seq<Locks>,
    steps: Seq<Served>,
    timeout: Duration,
    work_key: Seq<char>,
    holder: WorkerId,
    from: int,
    at: int,
)
    requires
        is_history(locks, steps, timeout),
        0 <= from <= at < locks.len(),
        crate::work_lock::lock_table::is_held_by(locks[from], work_key, holder),
        is_left_alone(locks, steps, timeout, work_key, holder, from),
    ensures
        crate::work_lock::lock_table::is_held_by(locks[at], work_key, holder),
    decreases at - from,
{
    if at > from {
        lemma_stays_held(locks, steps, timeout, work_key, holder, from, at - 1);
        let step = steps[at - 1];
        if step.command.key() != work_key {
            law_other_keys_are_untouched(locks[at - 1], step, timeout, locks[at], work_key);
        }
    }
}

/// Commands are served in the order of the queue, so a lock that was let go is there for the
/// next one who asks: once the holder's release is served, a later request for the key succeeds,
/// whatever else was served in between, unless another request for the key came first. Neither of
/// the two may fail.
pub proof fn law_a_released_lock_can_be_acquired(
    locks: Seq<Locks>,
    steps: Seq<Served>,
    timeout: Duration,
    work_key: Seq<char>,
    holder: WorkerId,
)
    requires
        timeout.is_interval(),
        is_history(locks, steps, timeout),
        steps.len() >= 2,
        crate::work_lock::lock_table::is_held_by(locks[0], work_key, holder),
        !steps[0].failed,
        steps[0].command is ReleaseLock,
        steps[0].command.key() == work_key,
        steps[0].command->ReleaseLock_worker_id == holder,
        forall|i: int|
            0 < i < steps.len() - 1 ==> !((#[trigger] steps[i]).command is AcquireLock
                && steps[i].command.key() == work_key),
        !steps.last().failed,
        steps.last().command is AcquireLock,
        steps.last().command.key() == work_key,
    ensures
        steps.last().reply == Some(Reply::Acquire(Ok(steps.last().fresh))),
        crate::work_lock::lock_table::is_held_by(locks.last(), work_key, steps.last().fresh),
{
    let n = steps.len() - 1;
    assert(steps[0].reply is None);
    assert(!locks[1].contains_key(work_key));
    lemma_unlocked_stays_unlocked(locks, steps, timeout, work_key, 1, n);
    assert(steps[n].command is AcquireLock);
}

proof fn lemma_unlocked_stays_unlocked(
    locks: Seq<Locks>,
    steps: Seq<Served>,
    timeout: Duration,
    work_key: Seq<char>,
    from: int,
    to: int,
)
    requires
        is_history(locks, steps, timeout),
        0 <= from <= to <= steps.len(),
        !locks[from].contains_key(work_key),
        forall|i: int|
            from <= i < to ==> !((#[trigger] steps[i]).command is AcquireLock
                && steps[i].command.key() == work_key),
    ensures
        !locks[to].contains_key(work_key),
    decreases to - from,
{
    if from < to {
        lemma_unlocked_stays_unlocked(locks, steps, timeout, work_key, from, to - 1);
        let step = steps[to - 1];
        assert(!locks[to].contains_key(work_key));
    }
}

/// A lock whose holder has expired goes to the next one who asks.
pub proof fn law_an_expired_lock_goes_to_the_next(
    before: Locks,
    work_key: WorkKey,
    old_holder: WorkerId,
    timeout: Duration,
    now: Timestamp,
    fresh: WorkerId,
    after: Locks,
    reply: Option<Reply>,
    report: Option<WorkLockEvent>,
)
    requires
        timeout.is_interval(),
        crate::work_lock::lock_table::is_held_by(before, work_key@, old_holder),
        before[work_key@].last_keepalive + timeout.micros() < now,
        fresh != old_holder,
        served(
            before,
            WorkLockManagerCommand::AcquireLock { work_key },
            timeout,
            now,
            fresh,
            after,
            reply,
            report,
        ),
    ensures
        reply == Some(Reply::Acquire(Ok(fresh))),
        crate::work_lock::lock_table::is_held_by(after, work_key@, fresh),
        !crate::work_lock::lock_table::is_held_by(after, work_key@, old_holder),
{
}

/// A worker that does not hold a key (any more) never holds it again, as long as the database
/// does not name it anew: all its keep-alives find the lock lost, unless they fail, and neither they
/// nor its releases do any harm.
pub proof fn law_a_lost_lock_stays_lost(
    locks: Seq<Locks>,
    steps: Seq<Served>,
    timeout: Duration,
    work_key: Seq<char>,
    worker_id: WorkerId,
)
    requires
        is_history(locks, steps, timeout),
        !crate::work_lock::lock_table::is_held_by(locks[0], work_key, worker_id),
        forall|i: int| 0 <= i < steps.len() ==> (#[trigger] steps[i]).fresh != worker_id,
    ensures
        forall|i: int|
            0 <= i < locks.len() ==> !crate::work_lock::lock_table::is_held_by(
                #[trigger] locks[i],
                work_key,
                worker_id,
            ),
        forall|i: int|
            0 <= i < steps.len() && (#[trigger] steps[i]).command is KeepLockAlive
                && steps[i].command.key() == work_key && steps[i].command->KeepLockAlive_worker_id
                == worker_id ==> {
                &&& steps[i].reply matches Some(Reply::KeepAlive(Err(error)))
                &&& if steps[i].failed {
                    error is Database
                } else {
                    error is LockLost
                }
                &&& locks[i + 1] == locks[i]
            },
        forall|i: int|
            0 <= i < steps.len() && (#[trigger] steps[i]).command is ReleaseLock
                && steps[i].command.key() == work_key && steps[i].command->ReleaseLock_worker_id
                == worker_id ==> locks[i + 1] == locks[i],
{
    assert forall|i: int| 0 <= i < locks.len() implies !crate::work_lock::lock_table::is_held_by(
        #[trigger] locks[i],
        work_key,
        worker_id,
    ) by {
        lemma_never_held(locks, steps, timeout, work_key, worker_id, i);
    }
    assert forall|i: int|
        0 <= i < steps.len() && (#[trigger] steps[i]).command is KeepLockAlive
            && steps[i].command.key() == work_key && steps[i].command->KeepLockAlive_worker_id
            == worker_id implies {
        &&& steps[i].reply matches Some(Reply::KeepAlive(Err(error)))
        &&& if steps[i].failed {
            error is Database
        } else {
            error is LockLost
        }
        &&& locks[i + 1] == locks[i]
    } by {
        assert(!crate::work_lock::lock_table::is_held_by(locks[i], work_key, worker_id));
    }
    assert forall|i: int|
        0 <= i < steps.len() && (#[trigger] steps[i]).command is ReleaseLock
            && steps[i].command.key() == work_key && steps[i].command->ReleaseLock_worker_id
            == worker_id implies locks[i + 1] == locks[i] by {
        assert(!crate::work_lock::lock_table::is_held_by(locks[i], work_key, worker_id));
    }
}

proof fn lemma_never_held(
    locks: Seq<Locks>,
    steps: Seq<Served>,
    timeout: Duration,
    work_key: Seq<char>,
    worker_id: WorkerId,
    at: int,
)
    requires
        is_history(locks, steps, timeout),
        0 <= at < locks.len(),
        !crate::work_lock::lock_table::is_held_by(locks[0], work_key, worker_id),
        forall|i: int| 0 <= i < steps.len() ==> (#[trigger] steps[i]).fresh != worker_id,
    ensures
        !crate::work_lock::lock_table::is_held_by(locks[at], work_key, worker_id),
    decreases at,
{
    if at > 0 {
        lemma_never_held(locks, steps, timeout, work_key, worker_id, at - 1);
        let step = steps[at - 1];
        assert(step.fresh != worker_id);
        if step.command.key() != work_key {
            law_other_keys_are_untouched(locks[at - 1], step, timeout, locks[at], work_key);
        }
    }
}

/// A statement is only run right after the connection has proved healthy, and the manager holds
/// that connection.
pub proof fn law_statements_run_on_healthy_connections_only(
    state: ManagerState,
    event: ManagerEvent,
    timeout: Duration,
    next: ManagerState,
    action: ManagerAction,
)
    requires
        crate::work_lock::manager::is_step(state, event, timeout, next, action),
        action.next is Execute,
    ensures
        event is Health,
        crate::work_lock::manager::is_healthy(event->read_only),
        state.holds_connection(),
        next.holds_connection(),
        !action.close_connection,
{
}

/// The manager never holds two connections: it asks for another one only when it holds none. It
/// closes a connection exactly when that proves unhealthy, and loses it in no other way until it
/// stops.
pub proof fn law_at_most_one_connection(
    state: ManagerState,
    event: ManagerEvent,
    timeout: Duration,
    next: ManagerState,
    action: ManagerAction,
)
    requires
        crate::work_lock::manager::is_step(state, event, timeout, next, action),
    ensures
        action.next is AcquireConnection ==> !next.holds_connection(),
        action.close_connection ==> {
            &&& state.holds_connection()
            &&& !next.holds_connection()
            &&& event is Health
            &&& !crate::work_lock::manager::is_healthy(event->read_only)
        },
        state.holds_connection() && !next.holds_connection() && !(next is Stopped)
            ==> action.close_connection,
        !state.holds_connection() && next.holds_connection() ==> event is Connected
            && event->Connected_0 is Ok,
{
}

/// A read-only (or closed) connection is closed and replaced, and the command that found it so is
/// executed on the replacement.
pub proof fn law_an_unhealthy_connection_is_replaced(
    command: WorkLockManagerCommand,
    read_only: Result<bool, String>,
    caller_gone: bool,
    timeout: Duration,
    state1: ManagerState,
    action1: ManagerAction,
    state2: ManagerState,
    action2: ManagerAction,
    state3: ManagerState,
    action3: ManagerAction,
    state4: ManagerState,
    action4: ManagerAction,
)
    requires
        !crate::work_lock::manager::is_healthy(read_only),
        crate::work_lock::manager::is_step(
            ManagerState::Receiving { connected: true },
            ManagerEvent::Received(Some(command)),
            timeout,
            state1,
            action1,
        ),
        crate::work_lock::manager::is_step(
            state1,
            ManagerEvent::Health { read_only, caller_gone },
            timeout,
            state2,
            action2,
        ),
        crate::work_lock::manager::is_step(
            state2,
            ManagerEvent::Connected(Ok(())),
            timeout,
            state3,
            action3,
        ),
        crate::work_lock::manager::is_step(
            state3,
            ManagerEvent::Health { read_only: Ok(false), caller_gone: false },
            timeout,
            state4,
            action4,
        ),
    ensures
        action1.next is CheckHealth,
        action2.close_connection,
        action2.next is AcquireConnection,
        action3.next is CheckHealth,
        action4.next == NextStep::Execute(command.spec_statement(timeout)),
        state4 == (ManagerState::Executing { command }),
{
}

/// On a healthy connection, and unless the caller of an acquire has given up, a command is served:
/// its statement is run, and its outcome on the rows is answered. Then the loop is ready for the
/// next command.
pub proof fn law_a_command_is_served_on_a_healthy_connection(
    command: WorkLockManagerCommand,
    caller_gone: bool,
    timeout: Duration,
    before: Locks,
    now: Timestamp,
    fresh: WorkerId,
    outcome: StatementOutcome,
    state1: ManagerState,
    action1: ManagerAction,
    state2: ManagerState,
    action2: ManagerAction,
    state3: ManagerState,
    action3: ManagerAction,
)
    requires
        !(command is AcquireLock && caller_gone),
        crate::work_lock::manager::is_step(
            ManagerState::Receiving { connected: true },
            ManagerEvent::Received(Some(command)),
            timeout,
            state1,
            action1,
        ),
        crate::work_lock::manager::is_step(
            state1,
            ManagerEvent::Health { read_only: Ok(false), caller_gone },
            timeout,
            state2,
            action2,
        ),
        crate::work_lock::lock_table::is_outcome(
            before,
            command.spec_statement(timeout),
            now,
            fresh,
            outcome,
        ),
        crate::work_lock::manager::is_step(
            state2,
            ManagerEvent::Executed(outcome),
            timeout,
            state3,
            action3,
        ),
    ensures
        action1.next is CheckHealth,
        action2.next == NextStep::Execute(command.spec_statement(timeout)),
        served(
            before,
            command,
            timeout,
            now,
            fresh,
            crate::work_lock::lock_table::executed(
                before,
                command.spec_statement(timeout),
                now,
                fresh,
            ),
            action3.reply,
            action3.report,
        ),
        state3 == (ManagerState::Receiving { connected: true }),
{
}

/// The command that a state has in hand.
pub open spec fn command_of(state: ManagerState) -> Option<WorkLockManagerCommand> {
    match state {
        ManagerState::Checking { command } => Some(command),
        ManagerState::Reacquiring { command } => Some(command),
        ManagerState::CheckingNew { command } => Some(command),
        ManagerState::Executing { command } => Some(command),
        _ => None,
    }
}

/// A command in hand stays in hand until its statement's outcome is answered, except in three
/// cases: no connection could be had, the new one is unhealthy too, or the caller of an acquire
/// has given up. Nothing is replied or reported before the outcome.
pub proof fn law_a_command_is_dropped_for_want_of_a_connection_or_caller_only(
    state: ManagerState,
    event: ManagerEvent,
    timeout: Duration,
    next: ManagerState,
    action: ManagerAction,
    command: WorkLockManagerCommand,
)
    requires
        crate::work_lock::manager::is_step(state, event, timeout, next, action),
        command_of(state) == Some(command),
    ensures
        command_of(next) == Some(command) || next is Receiving,
        next is Receiving ==> {
            ||| event is Executed && crate::work_lock::manager::is_answer(
                command,
                event->Executed_0,
                action.reply,
                action.report,
            )
            ||| event is Connected && event->Connected_0 is Err
            ||| state is CheckingNew && event is Health && !crate::work_lock::manager::is_healthy(
                event->read_only,
            )
            ||| command is AcquireLock && event is Health && event->caller_gone
        },
        !(event is Executed) ==> action.reply is None && action.report is None,
{
}

/// The manager was told these events, one after the other; `states[i]` is its state before event
/// `i`, and `actions[i]` what it was then to do.
pub open spec fn is_run(
    states: Seq<ManagerState>,
    events: Seq<ManagerEvent>,
    actions: Seq<ManagerAction>,
    timeout: Duration,
) -> bool {
    &&& states.len() == events.len() + 1
    &&& actions.len() == events.len()
    &&& states[0] is Receiving
    &&& forall|i: int|
        0 <= i < events.len() ==> crate::work_lock::manager::is_step(
            states[i],
            #[trigger] events[i],
            timeout,
            states[i + 1],
            actions[i],
        )
}

/// The commands that were taken from the queue up to event `n`, in their order.
pub open spec fn taken(states: Seq<ManagerState>, events: Seq<ManagerEvent>, n: int) -> Seq<
    WorkLockManagerCommand,
>
    decreases n,
{
    if n <= 0 {
        seq![]
    } else {
        match (states[n - 1], events[n - 1]) {
            (ManagerState::Receiving { .. }, ManagerEvent::Received(Some(command))) => taken(
                states,
                events,
                n - 1,
            ).push(command),
            _ => taken(states, events, n - 1),
        }
    }
}

/// The command whose statement has been run, if the event tells its outcome.
pub open spec fn effect(state: ManagerState, event: ManagerEvent) -> Option<
    WorkLockManagerCommand,
> {
    match (state, event) {
        (ManagerState::Executing { command }, ManagerEvent::Executed(outcome)) => if command.fits(
            outcome,
        ) {
            Some(command)
        } else {
            None
        },
        _ => None,
    }
}

/// The commands that took effect up to event `n`, in their order.
pub open spec fn effects(states: Seq<ManagerState>, events: Seq<ManagerEvent>, n: int) -> Seq<
    WorkLockManagerCommand,
>
    decreases n,
{
    if n <= 0 {
        seq![]
    } else {
        match effect(states[n - 1], events[n - 1]) {
            Some(command) => effects(states, events, n - 1).push(command),
            None => effects(states, events, n - 1),
        }
    }
}

/// The places of these commands among those that were taken.
pub open spec fn effect_places(states: Seq<ManagerState>, events: Seq<ManagerEvent>, n: int) -> Seq<
    int,
>
    decreases n,
{
    if n <= 0 {
        seq![]
    } else {
        match effect(states[n - 1], events[n - 1]) {
            Some(_) => effect_places(states, events, n - 1).push(
                taken(states, events, n - 1).len() - 1,
            ),
            None => effect_places(states, events, n - 1),
        }
    }
}

/// Commands take effect in the order in which they were taken from the queue, each at most once;
/// some that were taken may have been dropped.
pub proof fn law_commands_take_effect_in_the_order_taken(
    states: Seq<ManagerState>,
    events: Seq<ManagerEvent>,
    actions: Seq<ManagerAction>,
    timeout: Duration,
)
    requires
        is_run(states, events, actions, timeout),
    ensures
        ({
            let n = events.len() as int;
            let places = effect_places(states, events, n);
            &&& places.len() == effects(states, events, n).len()
            &&& forall|k: int|
                0 <= k < places.len() ==> 0 <= #[trigger] places[k] < taken(
                    states,
                    events,
                    n,
                ).len() && effects(states, events, n)[k] == taken(states, events, n)[places[k]]
            &&& forall|k: int, l: int|
                0 <= k < l < places.len() ==> #[trigger] places[k] < #[trigger] places[l]
        }),
{
    lemma_effects(states, events, actions, timeout, events.len() as int);
}

proof fn lemma_effects(
    states: Seq<ManagerState>,
    events: Seq<ManagerEvent>,
    actions: Seq<ManagerAction>,
    timeout: Duration,
    n: int,
)
    requires
        is_run(states, events, actions, timeout),
        0 <= n <= events.len(),
    ensures
        ({
            let places = effect_places(states, events, n);
            let commands = taken(states, events, n);
            &&& places.len() == effects(states, events, n).len()
            &&& forall|k: int|
                0 <= k < places.len() ==> 0 <= #[trigger] places[k] < commands.len() && effects(
                    states,
                    events,
                    n,
                )[k] == commands[places[k]]
            &&& forall|k: int, l: int|
                0 <= k < l < places.len() ==> #[trigger] places[k] < #[trigger] places[l]
            &&& command_of(states[n]) matches Some(command) ==> {
                &&& commands.len() > 0
                &&& commands.last() == command
                &&& forall|k: int|
                    0 <= k < places.len() ==> #[trigger] places[k] < commands.len() - 1
            }
        }),
    decreases n,
{
    if n > 0 {
        lemma_effects(states, events, actions, timeout, n - 1);
        assert(crate::work_lock::manager::is_step(
            states[n - 1],
            events[n - 1],
            timeout,
            states[n - 1 + 1],
            actions[n - 1],
        ));
    }
}

/// The database runs the statements: `locks[i]` are its rows before event `i`, `nows[i]` is its
/// clock then, and `freshes[i]` the worker that it would name. A statement that the driver reports
/// as failed may have been run or not.
pub open spec fn is_applied(
    states: Seq<ManagerState>,
    events: Seq<ManagerEvent>,
    timeout: Duration,
    locks: Seq<Locks>,
    nows: Seq<Timestamp>,
    freshes: Seq<WorkerId>,
) -> bool {
    &&& locks.len() == events.len() + 1
    &&& forall|i: int|
        0 <= i < events.len() ==> match effect(states[i], #[trigger] events[i]) {
            Some(command) => {
                let statement = command.spec_statement(timeout);
                let outcome = events[i]->Executed_0;
                let rows = crate::work_lock::lock_table::executed(
                    locks[i],
                    statement,
                    nows[i],
                    freshes[i],
                );
                if is_failure(outcome) {
                    locks[i + 1] == locks[i] || locks[i + 1] == rows
                } else {
                    &&& locks[i + 1] == rows
                    &&& crate::work_lock::lock_table::is_outcome(
                        locks[i],
                        statement,
                        nows[i],
                        freshes[i],
                        outcome,
                    )
                }
            },
            None => locks[i + 1] == locks[i],
        }
}

/// What was served up to event `n`.
pub open spec fn served_steps(
    states: Seq<ManagerState>,
    events: Seq<ManagerEvent>,
    actions: Seq<ManagerAction>,
    nows: Seq<Timestamp>,
    freshes: Seq<WorkerId>,
    n: int,
) -> Seq<Served>
    decreases n,
{
    if n <= 0 {
        seq![]
    } else {
        let before = served_steps(states, events, actions, nows, freshes, n - 1);
        match effect(states[n - 1], events[n - 1]) {
            Some(command) => before.push(
                Served {
                    command,
                    now: nows[n - 1],
                    fresh: freshes[n - 1],
                    reply: actions[n - 1].reply,
                    report: actions[n - 1].report,
                    failed: is_failure(events[n - 1]->Executed_0),
                },
            ),
            None => before,
        }
    }
}

/// The rows before the first of these, and after each.
pub open spec fn served_locks(
    states: Seq<ManagerState>,
    events: Seq<ManagerEvent>,
    locks: Seq<Locks>,
    n: int,
) -> Seq<Locks>
    decreases n,
{
    if n <= 0 {
        seq![locks[0]]
    } else {
        let before = served_locks(states, events, locks, n - 1);
        match effect(states[n - 1], events[n - 1]) {
            Some(_) => before.push(locks[n]),
            None => before,
        }
    }
}

/// What a run of the manager does on the rows is a history: the commands that took effect, served
/// one after the other, with the replies and reports that the manager gave. A statement that failed
/// is a step that failed.
pub proof fn law_a_run_gives_a_history(
    states: Seq<ManagerState>,
    events: Seq<ManagerEvent>,
    actions: Seq<ManagerAction>,
    timeout: Duration,
    locks: Seq<Locks>,
    nows: Seq<Timestamp>,
    freshes: Seq<WorkerId>,
)
    requires
        is_run(states, events, actions, timeout),
        is_applied(states, events, timeout, locks, nows, freshes),
    ensures
        ({
            let n = events.len() as int;
            let steps = served_steps(states, events, actions, nows, freshes, n);
            &&& is_history(served_locks(states, events, locks, n), steps, timeout)
            &&& served_locks(states, events, locks, n).last() == locks.last()
            &&& steps.len() == effects(states, events, n).len()
            &&& forall|k: int|
                0 <= k < steps.len() ==> (#[trigger] steps[k]).command == effects(
                    states,
                    events,
                    n,
                )[k]
        }),
{
    lemma_run_history(states, events, actions, timeout, locks, nows, freshes, events.len() as int);
}

proof fn lemma_run_history(
    states: Seq<ManagerState>,
    events: Seq<ManagerEvent>,
    actions: Seq<ManagerAction>,
    timeout: Duration,
    locks: Seq<Locks>,
    nows: Seq<Timestamp>,
    freshes: Seq<WorkerId>,
    n: int,
)
    requires
        is_run(states, events, actions, timeout),
        is_applied(states, events, timeout, locks, nows, freshes),
        0 <= n <= events.len(),
    ensures
        ({
            let steps = served_steps(states, events, actions, nows, freshes, n);
            &&& is_history(served_locks(states, events, locks, n), steps, timeout)
            &&& served_locks(states, events, locks, n).last() == locks[n]
            &&& steps.len() == effects(states, events, n).len()
            &&& forall|k: int|
                0 <= k < steps.len() ==> (#[trigger] steps[k]).command == effects(
                    states,
                    events,
                    n,
                )[k]
        }),
    decreases n,
{
    if n > 0 {
        lemma_run_history(states, events, actions, timeout, locks, nows, freshes, n - 1);
        let event = events[n - 1];
        let old_steps = served_steps(states, events, actions, nows, freshes, n - 1);
        let steps = served_steps(states, events, actions, nows, freshes, n);
        let rows = served_locks(states, events, locks, n);
        assert(crate::work_lock::manager::is_step(
            states[n - 1],
            event,
            timeout,
            states[n - 1 + 1],
            actions[n - 1],
        ));
        if let Some(command) = effect(states[n - 1], event) {
            assert forall|i: int| 0 <= i < steps.len() implies is_served_step(
                rows[i],
                #[trigger] steps[i],
                timeout,
                rows[i + 1],
            ) by {
                if i < old_steps.len() {
                    assert(steps[i] == old_steps[i]);
                } else {
                    assert(is_failure(event->Executed_0)
                        || crate::work_lock::lock_table::is_outcome(
                        locks[n - 1],
                        command.spec_statement(timeout),
                        nows[n - 1],
                        freshes[n - 1],
                        event->Executed_0,
                    ));
                    assert(crate::work_lock::manager::is_answer(
                        command,
                        event->Executed_0,
                        actions[n - 1].reply,
                        actions[n - 1].report,
                    ));
                }
            }
        }
    }
}

/// Exclusive ownership in a run of the manager, whatever statements fail in it: a lock that the
/// holder does not release, and that has not expired whenever somebody asks for it, is the
/// holder's to the end, and every request for it that takes effect is refused.
pub proof fn law_a_run_keeps_a_lock_exclusive(
    states: Seq<ManagerState>,
    events: Seq<ManagerEvent>,
    actions: Seq<ManagerAction>,
    timeout: Duration,
    locks: Seq<Locks>,
    nows: Seq<Timestamp>,
    freshes: Seq<WorkerId>,
    work_key: Seq<char>,
    holder: WorkerId,
)
    requires
        is_run(states, events, actions, timeout),
        is_applied(states, events, timeout, locks, nows, freshes),
        crate::work_lock::lock_table::is_held_by(locks[0], work_key, holder),
        forall|i: int|
            0 <= i < events.len() ==> match effect(states[i], #[trigger] events[i]) {
                Some(command) => command.key() == work_key ==> {
                    &&& command is AcquireLock ==> !crate::work_lock::lock_table::expired(
                        locks[i][work_key],
                        timeout,
                        nows[i],
                    )
                    &&& command is ReleaseLock ==> command->ReleaseLock_worker_id != holder
                },
                None => true,
            },
    ensures
        forall|i: int|
            0 <= i < locks.len() ==> crate::work_lock::lock_table::is_held_by(
                #[trigger] locks[i],
                work_key,
                holder,
            ),
        forall|i: int|
            0 <= i < events.len() ==> match effect(states[i], #[trigger] events[i]) {
                Some(command) => command is AcquireLock && command.key() == work_key ==> {
                    &&& actions[i].reply matches Some(Reply::Acquire(Err(error)))
                    &&& if is_failure(events[i]->Executed_0) || !timeout.is_interval() {
                        error is Database
                    } else {
                        error matches AcquireLockError::WorkAlreadyLocked(refused) && refused@
                            == work_key
                    }
                },
                None => true,
            },
{
    assert forall|i: int| 0 <= i < locks.len() implies crate::work_lock::lock_table::is_held_by(
        #[trigger] locks[i],
        work_key,
        holder,
    ) by {
        lemma_run_stays_held(
            states,
            events,
            actions,
            timeout,
            locks,
            nows,
            freshes,
            work_key,
            holder,
            i,
        );
    }
    assert forall|i: int| 0 <= i < events.len() implies match effect(
        states[i],
        #[trigger] events[i],
    ) {
        Some(command) => command is AcquireLock && command.key() == work_key ==> {
            &&& actions[i].reply matches Some(Reply::Acquire(Err(error)))
            &&& if is_failure(events[i]->Executed_0) || !timeout.is_interval() {
                error is Database
            } else {
                error matches AcquireLockError::WorkAlreadyLocked(refused) && refused@ == work_key
            }
        },
        None => true,
    } by {
        assert(crate::work_lock::lock_table::is_held_by(locks[i], work_key, holder));
    }
}

proof fn lemma_run_stays_held(
    states: Seq<ManagerState>,
    events: Seq<ManagerEvent>,
    actions: Seq<ManagerAction>,
    timeout: Duration,
    locks: Seq<Locks>,
    nows: Seq<Timestamp>,
    freshes: Seq<WorkerId>,
    work_key: Seq<char>,
    holder: WorkerId,
    n: int,
)
    requires
        is_run(states, events, actions, timeout),
        is_applied(states, events, timeout, locks, nows, freshes),
        0 <= n <= events.len(),
        crate::work_lock::lock_table::is_held_by(locks[0], work_key, holder),
        forall|i: int|
            0 <= i < events.len() ==> match effect(states[i], #[trigger] events[i]) {
                Some(command) => command.key() == work_key ==> {
                    &&& command is AcquireLock ==> !crate::work_lock::lock_table::expired(
                        locks[i][work_key],
                        timeout,
                        nows[i],
                    )
                    &&& command is ReleaseLock ==> command->ReleaseLock_worker_id != holder
                },
                None => true,
            },
    ensures
        crate::work_lock::lock_table::is_held_by(locks[n], work_key, holder),
    decreases n,
{
    if n > 0 {
        lemma_run_stays_held(
            states,
            events,
            actions,
            timeout,
            locks,
            nows,
            freshes,
            work_key,
            holder,
            n - 1,
        );
        let event = events[n - 1];
        assert(effect(states[n - 1], event) is None ==> locks[n] == locks[n - 1]);
    }
}

/// The loop stops only when all handles are gone, and never in the middle of a command.
pub proof fn law_the_manager_stops_when_all_handles_are_gone(
    state: ManagerState,
    event: ManagerEvent,
    timeout: Duration,
    next: ManagerState,
    action: ManagerAction,
)
    requires
        crate::work_lock::manager::is_step(state, event, timeout, next, action),
    ensures
        action.next is Stop <==> state is Receiving && event == ManagerEvent::Received(None),
        action.next is Stop ==> next is Stopped,
        next is Stopped ==> state is Stopped || action.next is Stop,
{
}

/// A keep-alive loop ends exactly when its lock is dropped while it waits, or found lost; the
/// latter is reported. Every other failure is reported, and the loop goes on.
pub proof fn law_a_keepalive_loop_ends_with_its_lock_only(
    work_key: WorkKey,
    worker_id: WorkerId,
    state: KeepaliveState,
    event: KeepaliveEvent,
    next: KeepaliveState,
    action: KeepaliveAction,
)
    requires
        crate::work_lock::handle::is_keepalive_step(
            work_key,
            worker_id,
            state,
            event,
            next,
            action,
        ),
        !(state is Stopped),
    ensures
        next is Stopped <==> {
            ||| state is Waiting && event is LockDropped
            ||| state is Sending && event is Replied && event->Replied_0 is Err
                && event->Replied_0->Err_0 is LockLost
        },
        next is Stopped <==> action.next == KeepaliveStep::Stop,
        action.report is Some <==> state is Sending && event is Replied && event->Replied_0 is Err,
{
}

/// A keep-alive loop was told these events, one after the other, while it was running; `states[i]`
/// is its state before event `i`, and `actions[i]` what it was then to do.
pub open spec fn is_keepalive_run(
    work_key: WorkKey,
    worker_id: WorkerId,
    states: Seq<KeepaliveState>,
    events: Seq<KeepaliveEvent>,
    actions: Seq<KeepaliveAction>,
) -> bool {
    &&& states.len() == events.len() + 1
    &&& actions.len() == events.len()
    &&& !(states[0] is Stopped)
    &&& forall|i: int|
        0 <= i < events.len() ==> crate::work_lock::handle::is_keepalive_step(
            work_key,
            worker_id,
            states[i],
            #[trigger] events[i],
            states[i + 1],
            actions[i],
        )
}

/// The failures that the first `n` actions report, in their order.
pub open spec fn reports(actions: Seq<KeepaliveAction>, n: int) -> Seq<WorkLockEvent>
    decreases n,
{
    if n <= 0 {
        seq![]
    } else {
        match actions[n - 1].report {
            Some(event) => reports(actions, n - 1).push(event),
            None => reports(actions, n - 1),
        }
    }
}

/// How many of the failures have these labels.
pub open spec fn labelled(
    events: Seq<WorkLockEvent>,
    operation: WorkLockOperation,
    failure: WorkLockFailure,
) -> nat
    decreases events.len(),
{
    if events.len() == 0 {
        0
    } else {
        let before = labelled(events.drop_last(), operation, failure);
        if events.last().spec_operation() == operation && events.last().spec_failure() == failure {
            before + 1
        } else {
            before
        }
    }
}

/// The failures were counted one after the other; `counters[i]` are the counts before failure `i`.
pub open spec fn are_counted(counters: Seq<FailureCounter>, events: Seq<WorkLockEvent>) -> bool {
    &&& counters.len() == events.len() + 1
    &&& forall|i: int|
        0 <= i < events.len() ==> counters[i].is_incremented(
            (#[trigger] events[i]).spec_operation(),
            events[i].spec_failure(),
            counters[i + 1],
        )
}

/// Every failure that is counted counts once, under its own labels: each count goes up by the
/// number of failures with its labels, as long as the numbers do not run out.
pub proof fn law_each_failure_counts_once(
    counters: Seq<FailureCounter>,
    events: Seq<WorkLockEvent>,
    operation: WorkLockOperation,
    failure: WorkLockFailure,
)
    requires
        are_counted(counters, events),
        counters[0].count(operation, failure) + events.len() <= u64::MAX,
    ensures
        counters.last().count(operation, failure) == counters[0].count(operation, failure)
            + labelled(events, operation, failure),
        labelled(events, operation, failure) <= events.len(),
    decreases events.len(),
{
    if events.len() > 0 {
        let n = events.len() - 1;
        let init = events.drop_last();
        let init_counters = counters.drop_last();
        assert forall|i: int| 0 <= i < init.len() implies init_counters[i].is_incremented(
            (#[trigger] init[i]).spec_operation(),
            init[i].spec_failure(),
            init_counters[i + 1],
        ) by {
            assert(init[i] == events[i]);
        }
        law_each_failure_counts_once(init_counters, init, operation, failure);
        assert(counters[n].is_incremented(
            events[n].spec_operation(),
            events[n].spec_failure(),
            counters[n + 1],
        ));
        assert(init_counters.last() == counters[n]);
    }
}

/// `merged` are the failures of two loops, each in its own order.
pub open spec fn is_merge(
    first: Seq<WorkLockEvent>,
    second: Seq<WorkLockEvent>,
    merged: Seq<WorkLockEvent>,
) -> bool
    decreases merged.len(),
{
    if merged.len() == 0 {
        first.len() == 0 && second.len() == 0
    } else {
        ||| first.len() > 0 && first.last() == merged.last() && is_merge(
            first.drop_last(),
            second,
            merged.drop_last(),
        )
        ||| second.len() > 0 && second.last() == merged.last() && is_merge(
            first,
            second.drop_last(),
            merged.drop_last(),
        )
    }
}

proof fn lemma_merge(
    first: Seq<WorkLockEvent>,
    second: Seq<WorkLockEvent>,
    merged: Seq<WorkLockEvent>,
    operation: WorkLockOperation,
    failure: WorkLockFailure,
)
    requires
        is_merge(first, second, merged),
    ensures
        labelled(merged, operation, failure) == labelled(first, operation, failure) + labelled(
            second,
            operation,
            failure,
        ),
    decreases merged.len(),
{
    if merged.len() > 0 {
        let rest = merged.drop_last();
        if first.len() > 0 && first.last() == merged.last() && is_merge(
            first.drop_last(),
            second,
            rest,
        ) {
            lemma_merge(first.drop_last(), second, rest, operation, failure);
        } else {
            lemma_merge(first, second.drop_last(), rest, operation, failure);
        }
    }
}

/// Step `at` is a keep-alive of the worker, with this reply.
pub open spec fn is_keepalive_reply(
    steps: Seq<Served>,
    at: int,
    work_key: WorkKey,
    worker_id: WorkerId,
    reply: Result<(), KeepAliveError>,
) -> bool {
    &&& steps[at].command == (WorkLockManagerCommand::KeepLockAlive { work_key, worker_id })
    &&& steps[at].reply == Some(Reply::KeepAlive(reply))
}

/// The lock is not dropped, and what its keep-alives come to is a reply of the manager, given at
/// step `from` or later, or that none could be had.
pub open spec fn is_answered(
    steps: Seq<Served>,
    from: int,
    work_key: WorkKey,
    worker_id: WorkerId,
    events: Seq<KeepaliveEvent>,
) -> bool {
    forall|j: int|
        0 <= j < events.len() ==> match #[trigger] events[j] {
            KeepaliveEvent::Tick => true,
            KeepaliveEvent::Replied(reply) => {
                ||| exists|i: int|
                    from <= i < steps.len() && #[trigger] is_keepalive_reply(
                        steps,
                        i,
                        work_key,
                        worker_id,
                        reply,
                    )
                ||| reply matches Err(error) && (error is WorkLockManagerSend
                    || error is WorkLockManagerReply)
            },
            KeepaliveEvent::LockDropped => false,
        }
}

/// A lock that expired and went to the next worker at step `takeover` is dead once its loop got
/// the answer to a keep-alive that was served after that; its successor is alive, as long as that
/// one is left alone. Whatever else the two loops met with before and after, the loss counts once.
///
/// The loops may be anywhere in their lives when the events begin. The two workers have to be
/// different. `counted` are the failures that the two reported, and `counters` the counts before
/// each of them and after the last.
pub proof fn law_an_expired_lock_dies_and_its_successor_lives(
    locks: Seq<Locks>,
    steps: Seq<Served>,
    timeout: Duration,
    work_key: WorkKey,
    takeover: int,
    old_worker: WorkerId,
    old_states: Seq<KeepaliveState>,
    old_events: Seq<KeepaliveEvent>,
    old_actions: Seq<KeepaliveAction>,
    told: int,
    answered: int,
    new_states: Seq<KeepaliveState>,
    new_events: Seq<KeepaliveEvent>,
    new_actions: Seq<KeepaliveAction>,
    counted: Seq<WorkLockEvent>,
    counters: Seq<FailureCounter>,
)
    requires
        timeout.is_interval(),
        is_history(locks, steps, timeout),
        0 <= takeover < told < steps.len(),
        crate::work_lock::lock_table::is_held_by(locks[takeover], work_key@, old_worker),
        crate::work_lock::lock_table::expired(
            locks[takeover][work_key@],
            timeout,
            steps[takeover].now,
        ),
        steps[takeover].command == (WorkLockManagerCommand::AcquireLock { work_key }),
        !steps[takeover].failed,
        steps[takeover].fresh != old_worker,
        is_left_alone(locks, steps, timeout, work_key@, steps[takeover].fresh, takeover + 1),
        is_keepalive_run(work_key, old_worker, old_states, old_events, old_actions),
        forall|j: int| 0 <= j < old_events.len() ==> !((#[trigger] old_events[j]) is LockDropped),
        0 <= answered < old_events.len(),
        !(old_states[answered] is Waiting),
        old_events[answered] is Replied,
        is_keepalive_reply(
            steps,
            told,
            work_key,
            old_worker,
            old_events[answered]->Replied_0,
        ),
        !steps[told].failed,
        is_keepalive_run(work_key, steps[takeover].fresh, new_states, new_events, new_actions),
        is_answered(steps, takeover + 1, work_key, steps[takeover].fresh, new_events),
        is_merge(
            reports(old_actions, old_actions.len() as int),
            reports(new_actions, new_actions.len() as int),
            counted,
        ),
        are_counted(counters, counted),
        counters[0].count(WorkLockOperation::KeepAlive, WorkLockFailure::LockLost) + counted.len()
            <= u64::MAX,
    ensures
        steps[takeover].reply == Some(Reply::Acquire(Ok(steps[takeover].fresh))),
        old_states.last() is Stopped,
        !(new_states.last() is Stopped),
        counters.last().count(WorkLockOperation::KeepAlive, WorkLockFailure::LockLost)
            == counters[0].count(WorkLockOperation::KeepAlive, WorkLockFailure::LockLost) + 1,
{
    let new_worker = steps[takeover].fresh;
    let from = takeover + 1;
    assert(is_served_step(locks[takeover], steps[takeover], timeout, locks[takeover + 1]));
    assert(crate::work_lock::lock_table::is_held_by(locks[from], work_key@, new_worker));
    assert forall|i: int, reply: Result<(), KeepAliveError>|
        from <= i < steps.len() && #[trigger] is_keepalive_reply(
            steps,
            i,
            work_key,
            new_worker,
            reply,
        ) implies !(reply is Err && reply->Err_0 is LockLost) by {
        lemma_stays_held(locks, steps, timeout, work_key@, new_worker, from, i);
        assert(is_served_step(locks[i], steps[i], timeout, locks[i + 1]));
    }
    lemma_stays_held(locks, steps, timeout, work_key@, new_worker, from, told);
    assert(is_served_step(locks[told], steps[told], timeout, locks[told + 1]));
    let reply = old_events[answered]->Replied_0;
    assert(reply is Err && reply->Err_0 is LockLost);
    assert(crate::work_lock::handle::is_keepalive_step(
        work_key,
        old_worker,
        old_states[answered],
        old_events[answered],
        old_states[answered + 1],
        old_actions[answered],
    ));
    lemma_loop_reports(
        work_key,
        old_worker,
        old_states,
        old_events,
        old_actions,
        old_events.len() as int,
    );
    lemma_living_loop(
        work_key,
        new_worker,
        new_states,
        new_events,
        new_actions,
        new_events.len() as int,
    );
    lemma_loop_reports(
        work_key,
        new_worker,
        new_states,
        new_events,
        new_actions,
        new_events.len() as int,
    );
    lemma_merge(
        reports(old_actions, old_actions.len() as int),
        reports(new_actions, new_actions.len() as int),
        counted,
        WorkLockOperation::KeepAlive,
        WorkLockFailure::LockLost,
    );
    law_each_failure_counts_once(
        counters,
        counted,
        WorkLockOperation::KeepAlive,
        WorkLockFailure::LockLost,
    );
}

/// A loop whose lock is not dropped reports a lost lock once, when it ends, and not before.
proof fn lemma_loop_reports(
    work_key: WorkKey,
    worker_id: WorkerId,
    states: Seq<KeepaliveState>,
    events: Seq<KeepaliveEvent>,
    actions: Seq<KeepaliveAction>,
    n: int,
)
    requires
        is_keepalive_run(work_key, worker_id, states, events, actions),
        0 <= n <= events.len(),
        forall|j: int| 0 <= j < events.len() ==> !((#[trigger] events[j]) is LockDropped),
    ensures
        labelled(
            reports(actions, n),
            WorkLockOperation::KeepAlive,
            WorkLockFailure::LockLost,
        ) == if states[n] is Stopped {
            1nat
        } else {
            0nat
        },
        forall|j: int| 0 <= j <= n && (#[trigger] states[j]) is Stopped ==> states[n] is Stopped,
    decreases n,
{
    if n > 0 {
        lemma_loop_reports(work_key, worker_id, states, events, actions, n - 1);
        assert(crate::work_lock::handle::is_keepalive_step(
            work_key,
            worker_id,
            states[n - 1],
            events[n - 1],
            states[n - 1 + 1],
            actions[n - 1],
        ));
        if let Some(event) = actions[n - 1].report {
            let before = reports(actions, n - 1);
            assert(before.push(event).drop_last() =~= before);
        }
    }
}

proof fn lemma_living_loop(
    work_key: WorkKey,
    worker_id: WorkerId,
    states: Seq<KeepaliveState>,
    events: Seq<KeepaliveEvent>,
    actions: Seq<KeepaliveAction>,
    n: int,
)
    requires
        is_keepalive_run(work_key, worker_id, states, events, actions),
        0 <= n <= events.len(),
        forall|j: int|
            0 <= j < events.len() ==> {
                ||| (#[trigger] events[j]) is Tick
                ||| events[j] is Replied && !(events[j]->Replied_0 is Err
                    && events[j]->Replied_0->Err_0 is LockLost)
            },
    ensures
        !(states[n] is Stopped),
    decreases n,
{
    if n > 0 {
        lemma_living_loop(work_key, worker_id, states, events, actions, n - 1);
        assert(crate::work_lock::handle::is_keepalive_step(
            work_key,
            worker_id,
            states[n - 1],
            events[n - 1],
            states[n - 1 + 1],
            actions[n - 1],
        ));
    }
}

/// The labels of different operations differ, and so do those of different failures.
pub proof fn law_labels_are_distinct()
    ensures
        forall|a: WorkLockOperation, b: WorkLockOperation| #[trigger]
            a.label() == #[trigger] b.label() ==> a == b,
        forall|a: WorkLockFailure, b: WorkLockFailure| #[trigger]
            a.label() == #[trigger] b.label() ==> a == b,
{
    reveal_strlit("release");
    reveal_strlit("keep_alive");
    reveal_strlit("database");
    reveal_strlit("command_dispatch");
    reveal_strlit("command_reply");
    reveal_strlit("lock_lost");
    assert("release"@.len() == 7);
    assert("keep_alive"@.len() == 10);
    assert("database"@.len() == 8);
    assert("command_dispatch"@.len() == 16);
    assert("command_reply"@.len() == 13);
    assert("lock_lost"@.len() == 9);
}

} // verus!
