//! What workers are told and what their keep-alive loops do, told by the events themselves.

use crate::work_lock::errors::{
    AcquireLockError, DatabaseError, KeepAliveError, WorkKey, WorkerId,
};
use crate::work_lock::events::{WorkLockEvent, WorkLockFailure};
use crate::work_lock::handle::{
    Call, KeepaliveAction, KeepaliveConfig, KeepaliveEvent, KeepaliveLoop, KeepaliveState,
    KeepaliveStep, StartedManager, WorkLock, WorkLockManagerHandle,
};
use crate::work_lock::manager::{ManagerState, WorkLockManagerCommand};
use vstd::prelude::*;

verus! {

/// A lost lock is the only reply that says so.
pub open spec fn is_loss(reply: Result<(), KeepAliveError>) -> bool {
    reply is Err && reply->Err_0 is LockLost
}

/// On a tick, a loop that waits sends a keep-alive for its own key and worker, and one that does
/// not wait stays as it is.
pub proof fn law_a_waiting_loop_sends_on_every_tick(l: &mut KeepaliveLoop, r: KeepaliveAction)
    requires
        call_ensures(KeepaliveLoop::step, (l, KeepaliveEvent::Tick), r),
    ensures
        final(l).work_key == old(l).work_key,
        final(l).worker_id == old(l).worker_id,
        r.report is None,
        old(l).state is Waiting ==> {
            &&& final(l).state is Sending
            &&& r.next matches KeepaliveStep::Send(
                WorkLockManagerCommand::KeepLockAlive { work_key, worker_id },
            )
            &&& work_key == old(l).work_key
            &&& worker_id == old(l).worker_id
        },
        !(old(l).state is Waiting) ==> final(l).state == old(l).state && r.next is KeepWaiting,
{
}

/// A dropped lock stops a loop that waits; one that does not wait stays as it is.
pub proof fn law_a_waiting_loop_stops_with_its_lock(l: &mut KeepaliveLoop, r: KeepaliveAction)
    requires
        call_ensures(KeepaliveLoop::step, (l, KeepaliveEvent::LockDropped), r),
    ensures
        final(l).work_key == old(l).work_key,
        final(l).worker_id == old(l).worker_id,
        r.report is None,
        old(l).state is Waiting ==> final(l).state is Stopped && r.next is Stop,
        !(old(l).state is Waiting) ==> final(l).state == old(l).state && r.next is KeepWaiting,
{
}

/// After every reply but a loss, whatever the error is, the loop waits for the next tick or for
/// the word to stop; after a loss it stops. A reply that was not awaited changes nothing.
pub proof fn law_a_loop_waits_again_after_every_reply_but_a_loss(
    l: &mut KeepaliveLoop,
    reply: Result<(), KeepAliveError>,
    r: KeepaliveAction,
)
    requires
        call_ensures(KeepaliveLoop::step, (l, KeepaliveEvent::Replied(reply)), r),
    ensures
        final(l).work_key == old(l).work_key,
        final(l).worker_id == old(l).worker_id,
        old(l).state is Sending && !is_loss(reply) ==> final(l).state is Waiting && r.next is Wait,
        old(l).state is Sending && is_loss(reply) ==> final(l).state is Stopped && r.next is Stop,
        !(old(l).state is Sending) ==> {
            &&& final(l).state == old(l).state
            &&& r.next is KeepWaiting
            &&& r.report is None
        },
{
}

/// Each failed keep-alive is reported with the key and the worker of the loop, the kind of failure
/// that its error is, and what the error says. A keep-alive that succeeded is not reported.
pub proof fn law_a_loop_reports_every_failure(
    l: &mut KeepaliveLoop,
    reply: Result<(), KeepAliveError>,
    text: String,
    r: KeepaliveAction,
)
    requires
        call_ensures(KeepaliveLoop::step, (l, KeepaliveEvent::Replied(reply)), r),
        reply is Err ==> call_ensures(KeepAliveError::message, (&reply->Err_0,), text),
        old(l).state is Sending,
    ensures
        reply is Ok ==> r.report is None,
        reply matches Err(KeepAliveError::LockLost(message)) ==> {
            &&& r.report matches Some(WorkLockEvent::Lost(lost))
            &&& lost.operation is KeepAlive
            &&& lost.failure is LockLost
            &&& lost.work_key == old(l).work_key
            &&& lost.worker_id == old(l).worker_id
            &&& lost.error == message
        },
        reply is Err && !is_loss(reply) ==> {
            &&& r.report matches Some(WorkLockEvent::KeepaliveFailed(failed))
            &&& failed.operation is KeepAlive
            &&& failed.failure is Database <==> reply->Err_0 is Database
            &&& failed.failure is CommandDispatch <==> reply->Err_0 is WorkLockManagerSend
            &&& failed.failure is CommandReply <==> reply->Err_0 is WorkLockManagerReply
            &&& failed.work_key == old(l).work_key
            &&& failed.worker_id == old(l).worker_id
            &&& failed.error@ == text@
        },
{
}

/// A reply that is no loss, then a tick: the loop sends a keep-alive for its own key and worker,
/// whatever the reply was. A dropped lock instead of the tick stops it.
pub proof fn law_a_failed_keepalive_is_tried_again(
    first: &mut KeepaliveLoop,
    second: &mut KeepaliveLoop,
    third: &mut KeepaliveLoop,
    reply: Result<(), KeepAliveError>,
    r1: KeepaliveAction,
    r2: KeepaliveAction,
    r3: KeepaliveAction,
)
    requires
        call_ensures(KeepaliveLoop::step, (first, KeepaliveEvent::Replied(reply)), r1),
        call_ensures(KeepaliveLoop::step, (second, KeepaliveEvent::Tick), r2),
        call_ensures(KeepaliveLoop::step, (third, KeepaliveEvent::LockDropped), r3),
        *final(first) == *old(second),
        *final(first) == *old(third),
        !(old(first).state is Stopped),
        !is_loss(reply),
    ensures
        r2.report is None,
        r2.next == KeepaliveStep::Send(
            WorkLockManagerCommand::KeepLockAlive {
                work_key: old(first).work_key,
                worker_id: old(first).worker_id,
            },
        ),
        final(second).state is Sending,
        r3.report is None,
        r3.next is Stop,
        final(third).state is Stopped,
{
}

/// In every run of a loop: once a reply has come that is no loss, and the lock was not dropped, the
/// next tick makes the loop send a keep-alive for its own key and worker.
pub proof fn law_the_next_tick_after_a_reply_sends_a_keepalive(
    work_key: WorkKey,
    worker_id: WorkerId,
    states: Seq<KeepaliveState>,
    events: Seq<KeepaliveEvent>,
    actions: Seq<KeepaliveAction>,
    replied: int,
    tick: int,
)
    requires
        crate::work_lock::laws::is_keepalive_run(work_key, worker_id, states, events, actions),
        0 <= replied < tick < events.len(),
        !(states[replied] is Stopped),
        events[replied] is Replied,
        !is_loss(events[replied]->Replied_0),
        forall|j: int|
            replied < j < tick ==> !((#[trigger] events[j]) is Tick) && !(events[j] is LockDropped),
        events[tick] is Tick,
    ensures
        states[tick] is Waiting,
        states[tick + 1] is Sending,
        actions[tick].report is None,
        actions[tick].next == KeepaliveStep::Send(
            WorkLockManagerCommand::KeepLockAlive { work_key, worker_id },
        ),
{
    assert(events[replied] is Replied);
    lemma_waits(work_key, worker_id, states, events, actions, replied, tick);
    assert(events[tick] is Tick);
}

proof fn lemma_waits(
    work_key: WorkKey,
    worker_id: WorkerId,
    states: Seq<KeepaliveState>,
    events: Seq<KeepaliveEvent>,
    actions: Seq<KeepaliveAction>,
    replied: int,
    n: int,
)
    requires
        crate::work_lock::laws::is_keepalive_run(work_key, worker_id, states, events, actions),
        0 <= replied < n <= events.len(),
        !(states[replied] is Stopped),
        events[replied] is Replied,
        !is_loss(events[replied]->Replied_0),
        forall|j: int|
            replied < j < n ==> !((#[trigger] events[j]) is Tick) && !(events[j] is LockDropped),
    ensures
        states[n] is Waiting,
    decreases n - replied,
{
    if n > replied + 1 {
        lemma_waits(work_key, worker_id, states, events, actions, replied, n - 1);
    }
    assert(events[n - 1] is Replied);
    assert(states[n - 1 + 1] is Waiting);
}

/// A loop that is told ticks and replies in turn, none of them a loss, sends a keep-alive for its
/// own key and worker on every tick, however many of them fail.
pub proof fn law_every_tick_of_a_living_loop_sends_a_keepalive(
    work_key: WorkKey,
    worker_id: WorkerId,
    states: Seq<KeepaliveState>,
    events: Seq<KeepaliveEvent>,
    actions: Seq<KeepaliveAction>,
    n: int,
)
    requires
        crate::work_lock::laws::is_keepalive_run(work_key, worker_id, states, events, actions),
        states[0] is Waiting,
        forall|j: int|
            0 <= j < events.len() ==> if j % 2 == 0 {
                (#[trigger] events[j]) is Tick
            } else {
                events[j] is Replied && !is_loss(events[j]->Replied_0)
            },
        0 <= n < events.len(),
        n % 2 == 0,
    ensures
        states[n] is Waiting,
        actions[n].next == KeepaliveStep::Send(
            WorkLockManagerCommand::KeepLockAlive { work_key, worker_id },
        ),
    decreases n,
{
    if n > 0 {
        law_every_tick_of_a_living_loop_sends_a_keepalive(
            work_key,
            worker_id,
            states,
            events,
            actions,
            n - 2,
        );
        assert(events[n - 2] is Tick);
        assert(states[n - 2 + 1] is Sending);
        assert(events[n - 1] is Replied);
        assert(states[n - 1 + 1] is Waiting);
    }
    assert(events[n] is Tick);
}

/// What a loop does is what its step does: a run can be made of calls.
pub proof fn law_a_step_is_part_of_a_run(
    l: &mut KeepaliveLoop,
    event: KeepaliveEvent,
    r: KeepaliveAction,
)
    requires
        call_ensures(KeepaliveLoop::step, (l, event), r),
        !(old(l).state is Stopped),
    ensures
        crate::work_lock::laws::is_keepalive_run(
            old(l).work_key,
            old(l).worker_id,
            seq![old(l).state, final(l).state],
            seq![event],
            seq![r],
        ),
{
}

/// The loop of a lock starts out waiting, for the key and the worker of the lock. It counts as
/// alive in every state but the one in which it has ended.
pub proof fn law_a_lock_is_alive_until_its_loop_has_stopped(
    lock: WorkLock,
    first: KeepaliveLoop,
    l: KeepaliveLoop,
    at_first: bool,
    r: bool,
)
    requires
        call_ensures(WorkLock::keepalive_loop, (&lock,), first),
        call_ensures(WorkLock::is_alive, (&lock, &first), at_first),
        call_ensures(WorkLock::is_alive, (&lock, &l), r),
    ensures
        first.work_key == lock.work_key,
        first.worker_id == lock.worker_id,
        first.state is Waiting,
        at_first,
        l.state is Waiting ==> r,
        l.state is Sending ==> r,
        l.state is Stopped ==> !r,
{
}

/// A lock is told alive after every step that did not stop it.
pub proof fn law_only_a_loss_or_a_drop_ends_a_lock(
    lock: WorkLock,
    l: &mut KeepaliveLoop,
    event: KeepaliveEvent,
    action: KeepaliveAction,
    before: bool,
    after: bool,
)
    requires
        call_ensures(KeepaliveLoop::step, (l, event), action),
        call_ensures(WorkLock::is_alive, (&lock, &*old(l)), before),
        call_ensures(WorkLock::is_alive, (&lock, &*final(l)), after),
    ensures
        !before ==> !after,
        before && !after ==> event is LockDropped || event is Replied && is_loss(
            event->Replied_0,
        ),
        before && old(l).state is Waiting && event is LockDropped ==> !after,
        before && old(l).state is Sending && event is Replied && is_loss(event->Replied_0)
            ==> !after,
{
}

/// A manager starts with the connection that it was given: its loop waits for commands, keeps the
/// time-out, and the handle the interval. Without a connection it does not start, and tells why.
pub proof fn law_a_manager_starts_with_its_connection(
    config: KeepaliveConfig,
    error: String,
    r: Result<StartedManager, DatabaseError>,
    failed: Result<StartedManager, DatabaseError>,
)
    requires
        call_ensures(crate::work_lock::handle::start, (Ok(()), config), r),
        call_ensures(crate::work_lock::handle::start, (Err(error), config), failed),
    ensures
        r is Ok,
        r->Ok_0.handle.keepalive_interval == config.interval,
        r->Ok_0.keepalive_timeout == config.timeout,
        r->Ok_0.state matches ManagerState::Receiving { connected } && connected,
        failed matches Err(DatabaseError::Acquire(told)) && told == error,
{
}

/// By default a keep-alive is sent every ten seconds, and a lock expires after sixty.
pub proof fn law_the_defaults_are_ten_and_sixty_seconds(r: KeepaliveConfig)
    requires
        call_ensures(KeepaliveConfig::default, (), r),
    ensures
        r.interval.secs == 10,
        r.interval.nanos == 0,
        r.timeout.secs == 60,
        r.timeout.nanos == 0,
        6 * r.interval.micros() == r.timeout.micros(),
{
}

/// A worker that asks for a lock names its key.
pub proof fn law_a_request_names_its_key(
    handle: WorkLockManagerHandle,
    work_key: WorkKey,
    r: WorkLockManagerCommand,
)
    requires
        call_ensures(WorkLockManagerHandle::acquire_command, (&handle, &work_key), r),
    ensures
        r is AcquireLock,
        r->AcquireLock_work_key == work_key,
{
}

/// A request gives a lock exactly when the manager named a worker: the lock then has the key that
/// was asked for, that worker and the handle. Otherwise the error says what failed.
pub proof fn law_a_granted_request_is_a_lock(
    handle: WorkLockManagerHandle,
    work_key: WorkKey,
    call: Call<WorkerId, AcquireLockError>,
    r: Result<WorkLock, AcquireLockError>,
)
    requires
        call_ensures(WorkLockManagerHandle::try_acquire_lock, (&handle, work_key, call), r),
    ensures
        r is Ok <==> call is Replied && call->Replied_0 is Ok,
        r matches Ok(lock) ==> {
            &&& lock.work_key == work_key
            &&& lock.worker_id == call->Replied_0->Ok_0
            &&& lock.manager == handle
        },
        call matches Call::Replied(Err(error)) ==> r->Err_0 == error,
        call matches Call::NotSent(error) ==> {
            &&& r->Err_0 is WorkLockManagerSend
            &&& r->Err_0->WorkLockManagerSend_0 == error
        },
        call matches Call::NoReply(error) ==> {
            &&& r->Err_0 is WorkLockManagerReply
            &&& r->Err_0->WorkLockManagerReply_0 == error
        },
{
}

/// A keep-alive comes to what the manager replied; without a reply the error says what failed, and
/// never that the lock is lost.
pub proof fn law_a_keepalive_comes_to_its_reply(
    handle: WorkLockManagerHandle,
    call: Call<(), KeepAliveError>,
    r: Result<(), KeepAliveError>,
)
    requires
        call_ensures(WorkLockManagerHandle::keep_lock_alive, (&handle, call), r),
    ensures
        call matches Call::Replied(result) ==> r == result,
        call matches Call::NotSent(error) ==> {
            &&& r matches Err(KeepAliveError::WorkLockManagerSend(told))
            &&& told == error
        },
        call matches Call::NoReply(error) ==> {
            &&& r matches Err(KeepAliveError::WorkLockManagerReply(told))
            &&& told == error
        },
        !(call is Replied) ==> r is Err && !is_loss(r),
{
}

/// A new lock has the parts that it was made of.
pub proof fn law_a_new_lock_has_its_parts(
    manager: WorkLockManagerHandle,
    work_key: WorkKey,
    worker_id: WorkerId,
    r: WorkLock,
)
    requires
        call_ensures(WorkLock::new, (manager, work_key, worker_id), r),
    ensures
        r.manager == manager,
        r.work_key == work_key,
        r.worker_id == worker_id,
{
}

/// A lock is let go by its own key and worker. If that cannot be sent, it is reported, with the key,
/// the worker and the error; if it was sent, nothing is.
pub proof fn law_a_lock_is_let_go_by_its_own_names(
    lock: WorkLock,
    error: String,
    command: WorkLockManagerCommand,
    sent: Option<WorkLockEvent>,
    not_sent: Option<WorkLockEvent>,
    event: WorkLockEvent,
)
    requires
        call_ensures(WorkLock::release_command, (&lock,), command),
        call_ensures(WorkLock::release_sent, (&lock, Ok(())), sent),
        call_ensures(WorkLock::release_sent, (&lock, Err(error)), not_sent),
        call_ensures(WorkLock::release_dispatch_failed, (&lock, error), event),
    ensures
        command is ReleaseLock,
        command->ReleaseLock_work_key == lock.work_key,
        command->ReleaseLock_worker_id == lock.worker_id,
        sent is None,
        not_sent == Some(event),
        event is ReleaseDispatchFailed,
        event->ReleaseDispatchFailed_0.operation is Release,
        event->ReleaseDispatchFailed_0.failure is CommandDispatch,
        event->ReleaseDispatchFailed_0.work_key == lock.work_key,
        event->ReleaseDispatchFailed_0.worker_id == lock.worker_id,
        event->ReleaseDispatchFailed_0.error == error,
{
}

/// What a database error says.
pub proof fn law_a_database_error_says_what_failed(error: DatabaseError, r: String)
    requires
        call_ensures(DatabaseError::message, (&error,), r),
    ensures
        error matches DatabaseError::FailedPrecondition(message) ==> r@ == message@,
        error matches DatabaseError::Internal { message } ==> r@ == "internal error: "@ + message@,
        error matches DatabaseError::Acquire(reported) ==> r@ == reported@,
        error matches DatabaseError::Query { query, error: reported } ==> r@ == reported@,
{
}

/// What the error of a request says: that the work is locked, what the database says, or what went
/// wrong between worker and manager.
pub proof fn law_a_refused_request_says_why(error: AcquireLockError, inner: String, r: String)
    requires
        call_ensures(AcquireLockError::message, (&error,), r),
        error matches AcquireLockError::Database(of) ==> call_ensures(
            DatabaseError::message,
            (&of,),
            inner,
        ),
    ensures
        error matches AcquireLockError::WorkAlreadyLocked(work_key) ==> r@
            == "work is already locked for "@ + work_key@,
        error is Database ==> r@ == inner@,
        error matches AcquireLockError::WorkLockManagerSend(told) ==> r@
            == "error sending AcquireLock command to WorkLockManager, database is likely overloaded: "@
            + told@,
        error matches AcquireLockError::WorkLockManagerReply(told) ==> r@
            == "BUG: error receiving AcquireLock reply from WorkLockManager, database connections are likely failing: "@
            + told@,
        error matches AcquireLockError::Timeout(told) ==> r@ == told@,
{
}

/// What the error of a keep-alive says, and as what kind of failure it counts.
pub proof fn law_a_failed_keepalive_says_why(
    error: KeepAliveError,
    inner: String,
    r: String,
    failure: WorkLockFailure,
)
    requires
        call_ensures(KeepAliveError::message, (&error,), r),
        call_ensures(KeepAliveError::failure, (&error,), failure),
        error matches KeepAliveError::Database(of) ==> call_ensures(
            DatabaseError::message,
            (&of,),
            inner,
        ),
    ensures
        error matches KeepAliveError::LockLost(told) ==> r@ == told@,
        error is Database ==> r@ == inner@,
        error matches KeepAliveError::WorkLockManagerSend(told) ==> r@
            == "error sending KeepAlive command to WorkLockManager, database is likely overloaded: "@
            + told@,
        error matches KeepAliveError::WorkLockManagerReply(told) ==> r@
            == "BUG: error receiving KeepAlive reply from WorkLockManager, database connections are likely failing: "@
            + told@,
        error is LockLost <==> failure is LockLost,
        error is Database <==> failure is Database,
        error is WorkLockManagerSend <==> failure is CommandDispatch,
        error is WorkLockManagerReply <==> failure is CommandReply,
{
}

} // verus!
