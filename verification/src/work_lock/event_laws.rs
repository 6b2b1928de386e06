//! What is reported, recorded and counted of a failure, told by the failure itself.

use crate::work_lock::errors::{DatabaseError, WorkKey, WorkerId};
use crate::work_lock::events::{
    FailureCounter, FailureRecord, WorkLockEvent, WorkLockFailure, WorkLockKeepaliveFailed,
    WorkLockLost, WorkLockOperation, WorkLockReleaseDispatchFailed, WorkLockReleaseFailed,
};
use vstd::prelude::*;

verus! {

/// The labels of the operations.
pub proof fn law_operations_have_these_labels(operation: WorkLockOperation, r: &'static str)
    requires
        call_ensures(WorkLockOperation::label_value, (&operation,), r),
    ensures
        operation is Release ==> r@ == "release"@,
        operation is KeepAlive ==> r@ == "keep_alive"@,
{
}

/// The labels of the failures.
pub proof fn law_failures_have_these_labels(failure: WorkLockFailure, r: &'static str)
    requires
        call_ensures(WorkLockFailure::label_value, (&failure,), r),
    ensures
        failure is Database ==> r@ == "database"@,
        failure is CommandDispatch ==> r@ == "command_dispatch"@,
        failure is CommandReply ==> r@ == "command_reply"@,
        failure is LockLost ==> r@ == "lock_lost"@,
{
}

/// A failed release counts as a lost lock exactly when its row was missing, and as a failure of the
/// database otherwise. It keeps the key and says what the error says.
pub proof fn law_a_failed_release_is_a_loss_only_without_a_row(
    work_key: WorkKey,
    error: DatabaseError,
    text: String,
    r: WorkLockReleaseFailed,
)
    requires
        call_ensures(DatabaseError::message, (&error,), text),
        call_ensures(WorkLockReleaseFailed::new, (work_key, &error), r),
    ensures
        r.operation is Release,
        r.failure is LockLost <==> error is FailedPrecondition,
        r.failure is Database <==> !(error is FailedPrecondition),
        r.work_key == work_key,
        r.error@ == text@,
{
}

/// The other events keep what they are made of, each under its own labels.
pub proof fn law_an_event_keeps_what_it_is_made_of(
    work_key: WorkKey,
    worker_id: WorkerId,
    error: String,
    failure: WorkLockFailure,
    not_sent: WorkLockReleaseDispatchFailed,
    lost: WorkLockLost,
    failed: WorkLockKeepaliveFailed,
)
    requires
        call_ensures(WorkLockReleaseDispatchFailed::new, (work_key, worker_id, error), not_sent),
        call_ensures(WorkLockLost::new, (work_key, worker_id, error), lost),
        call_ensures(WorkLockKeepaliveFailed::new, (failure, work_key, worker_id, error), failed),
    ensures
        not_sent.operation is Release,
        not_sent.failure is CommandDispatch,
        not_sent.work_key == work_key,
        not_sent.worker_id == worker_id,
        not_sent.error == error,
        lost.operation is KeepAlive,
        lost.failure is LockLost,
        lost.work_key == work_key,
        lost.worker_id == worker_id,
        lost.error == error,
        failed.operation is KeepAlive,
        failed.failure == failure,
        failed.work_key == work_key,
        failed.worker_id == worker_id,
        failed.error == error,
{
}

/// The record tells this worker, in the usual text.
pub open spec fn tells_worker(record: FailureRecord, worker_id: WorkerId) -> bool {
    &&& record.worker_id is Some
    &&& record.worker_id->0@ == crate::ids::hyphenated(worker_id.bits)
}

/// The record of an event has the event's own labels, key and error, and its worker where it has
/// one; its name and message tell the events apart.
pub proof fn law_a_record_tells_its_event(event: WorkLockEvent, r: FailureRecord)
    requires
        call_ensures(WorkLockEvent::record, (&event,), r),
    ensures
        event matches WorkLockEvent::ReleaseFailed(e) ==> {
            &&& r.operation == e.operation
            &&& r.failure == e.failure
            &&& r.work_key == e.work_key
            &&& r.error == e.error
            &&& r.worker_id is None
            &&& r.event_name@ == "work_lock_release_failed"@
            &&& r.message@ == "Could not release work lock"@
        },
        event matches WorkLockEvent::ReleaseDispatchFailed(e) ==> {
            &&& r.operation == e.operation
            &&& r.failure == e.failure
            &&& r.work_key == e.work_key
            &&& r.error == e.error
            &&& tells_worker(r, e.worker_id)
            &&& r.event_name@ == "work_lock_release_dispatch_failed"@
            &&& r.message@
                == "Could not release work lock: WorkLockManager queue is full; database is likely overloaded"@
        },
        event matches WorkLockEvent::Lost(e) ==> {
            &&& r.operation == e.operation
            &&& r.failure == e.failure
            &&& r.work_key == e.work_key
            &&& r.error == e.error
            &&& tells_worker(r, e.worker_id)
            &&& r.event_name@ == "work_lock_lost"@
            &&& r.message@ == "worker lost lock"@
        },
        event matches WorkLockEvent::KeepaliveFailed(e) ==> {
            &&& r.operation == e.operation
            &&& r.failure == e.failure
            &&& r.work_key == e.work_key
            &&& r.error == e.error
            &&& tells_worker(r, e.worker_id)
            &&& r.event_name@ == "work_lock_keepalive_failed"@
            &&& r.message@ == "Failed to send work-lock keepalive; retrying"@
        },
{
}

/// All records are errors of one component, counted under one name.
pub proof fn law_all_records_share_a_counter(
    first: WorkLockEvent,
    second: WorkLockEvent,
    r1: FailureRecord,
    r2: FailureRecord,
)
    requires
        call_ensures(WorkLockEvent::record, (&first,), r1),
        call_ensures(WorkLockEvent::record, (&second,), r2),
    ensures
        r1.level is Error,
        r1.metric_name@ == "carbide_work_lock_failures_total"@,
        r1.metric_description@
            == "Number of work-lock lifecycle failures, by operation and failure kind."@,
        r1.component@ == "nico-api"@,
        r1.metric_name@ == r2.metric_name@,
        r1.metric_description@ == r2.metric_description@,
        r1.component@ == r2.component@,
        r1.level == r2.level,
{
}

/// A new counter has counted nothing, under whatever labels.
pub proof fn law_a_new_counter_is_zero(
    counter: FailureCounter,
    operation: WorkLockOperation,
    failure: WorkLockFailure,
    r: u64,
)
    requires
        call_ensures(FailureCounter::new, (), counter),
        call_ensures(FailureCounter::get, (&counter, operation, failure), r),
    ensures
        r == 0,
{
}

/// Counting a record adds one under the labels of the record, unless the largest number is
/// reached, and nothing under any other labels.
pub proof fn law_a_record_counts_under_its_labels_only(
    counter: &mut FailureCounter,
    record: FailureRecord,
    operation: WorkLockOperation,
    failure: WorkLockFailure,
    before: u64,
    after: u64,
)
    requires
        call_ensures(FailureCounter::increment, (counter, &record), ()),
        call_ensures(FailureCounter::get, (&*old(counter), operation, failure), before),
        call_ensures(FailureCounter::get, (&*final(counter), operation, failure), after),
    ensures
        operation == record.operation && failure == record.failure && before < u64::MAX ==> after
            == before + 1,
        operation == record.operation && failure == record.failure && before == u64::MAX ==> after
            == before,
        operation != record.operation || failure != record.failure ==> after == before,
{
    assert(old(counter).is_incremented(record.operation, record.failure, *final(counter)));
    assert(final(counter).count(operation, failure) == after);
}

} // verus!
