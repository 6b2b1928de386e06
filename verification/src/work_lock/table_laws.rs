//! What each statement does to the rows and gives, told by the rows themselves.

use crate::time::{Duration, Timestamp};
use crate::work_lock::errors::{DatabaseError, WorkKey, WorkerId};
use crate::work_lock::lock_table::{LockRow, LockTable, Locks};
use crate::work_lock::statements::{Statement, StatementOutcome};
use vstd::prelude::*;

verus! {

/// The span in microseconds, a part of one left out.
pub open spec fn whole_micros(timeout: Duration) -> int {
    timeout.secs * 1_000_000 + timeout.nanos / 1000
}

/// The time-out can be bound: it has no part of a microsecond, and its microseconds fit into a
/// signed number of 64 bits.
pub open spec fn can_be_bound(timeout: Duration) -> bool {
    timeout.nanos % 1000 == 0 && whole_micros(timeout) <= 0x7fff_ffff_ffff_ffff
}

/// The key has no row, or one whose last keep-alive is longer ago than the time-out.
pub open spec fn can_be_taken(
    locks: Locks,
    key: Seq<char>,
    timeout: Duration,
    now: Timestamp,
) -> bool {
    locks.contains_key(key) ==> locks[key].last_keepalive + whole_micros(timeout) < now
}

/// The key has a row of this worker.
pub open spec fn has_row(locks: Locks, key: Seq<char>, worker_id: WorkerId) -> bool {
    locks.contains_key(key) && locks[key].worker_id == worker_id
}

/// The rows of all other keys are the same.
pub open spec fn keeps_other_rows(before: Locks, after: Locks, key: Seq<char>) -> bool {
    forall|other: Seq<char>|
        other != key ==> {
            &&& #[trigger] after.contains_key(other) == before.contains_key(other)
            &&& before.contains_key(other) ==> after[other] == before[other]
        }
}

/// All rows are the same.
pub open spec fn keeps_all_rows(before: Locks, after: Locks) -> bool {
    &&& forall|key: Seq<char>| #[trigger] after.contains_key(key) == before.contains_key(key)
    &&& forall|key: Seq<char>| #[trigger] before.contains_key(key) ==> after[key] == before[key]
}

/// A fresh row for the key: the worker's, started and kept alive now.
pub open spec fn has_fresh_row(
    locks: Locks,
    key: Seq<char>,
    worker_id: WorkerId,
    now: Timestamp,
) -> bool {
    &&& locks.contains_key(key)
    &&& locks[key].worker_id == worker_id
    &&& locks[key].started == now
    &&& locks[key].last_keepalive == now
}

/// What an attempt to acquire comes to on these rows.
pub open spec fn is_attempt(
    before: Locks,
    key: Seq<char>,
    timeout: Duration,
    now: Timestamp,
    fresh: WorkerId,
    after: Locks,
    r: Result<Option<WorkerId>, String>,
) -> bool {
    &&& keeps_other_rows(before, after, key)
    &&& can_be_bound(timeout) && can_be_taken(before, key, timeout, now) ==> {
        &&& r == Ok::<Option<WorkerId>, String>(Some(fresh))
        &&& has_fresh_row(after, key, fresh, now)
    }
    &&& can_be_bound(timeout) && !can_be_taken(before, key, timeout, now) ==> {
        &&& r == Ok::<Option<WorkerId>, String>(None)
        &&& keeps_all_rows(before, after)
    }
    &&& !can_be_bound(timeout) ==> {
        &&& r is Err
        &&& keeps_all_rows(before, after)
        &&& timeout.nanos % 1000 != 0 ==> r->Err_0@
            == "error occurred while encoding a value: Encoding argument $2 failed: PostgreSQL `INTERVAL` does not support nanoseconds precision"@
        &&& timeout.nanos % 1000 == 0 ==> r->Err_0@
            == "error occurred while encoding a value: Encoding argument $2 failed: out of range integral type conversion attempted"@
    }
}

/// What a release comes to on these rows: the holder's row goes, and no other.
pub open spec fn is_letting_go(
    before: Locks,
    key: Seq<char>,
    worker_id: WorkerId,
    after: Locks,
    keys: Seq<WorkKey>,
) -> bool {
    &&& keeps_other_rows(before, after, key)
    &&& has_row(before, key, worker_id) ==> {
        &&& !after.contains_key(key)
        &&& keys.len() == 1
        &&& keys[0]@ == key
    }
    &&& !has_row(before, key, worker_id) ==> keeps_all_rows(before, after) && keys.len() == 0
}

/// What a keep-alive comes to on these rows: the holder's row, expired or not, is kept alive now.
pub open spec fn is_renewal(
    before: Locks,
    key: Seq<char>,
    worker_id: WorkerId,
    now: Timestamp,
    after: Locks,
    keys: Seq<WorkKey>,
) -> bool {
    &&& keeps_other_rows(before, after, key)
    &&& has_row(before, key, worker_id) ==> {
        &&& after.contains_key(key)
        &&& after[key].worker_id == worker_id
        &&& after[key].started == before[key].started
        &&& after[key].last_keepalive == now
        &&& keys.len() == 1
        &&& keys[0]@ == key
    }
    &&& !has_row(before, key, worker_id) ==> keeps_all_rows(before, after) && keys.len() == 0
}

/// A new table has no row, and a lookup tells the row that a key has, if it has one.
pub proof fn law_a_lookup_tells_the_row(
    empty: LockTable,
    table: LockTable,
    work_key: WorkKey,
    nothing: Option<&LockRow>,
    r: Option<&LockRow>,
)
    requires
        call_ensures(LockTable::new, (), empty),
        call_ensures(LockTable::get, (&empty, &work_key), nothing),
        call_ensures(LockTable::get, (&table, &work_key), r),
    ensures
        nothing is None,
        r is Some <==> table@.contains_key(work_key@),
        r is Some ==> {
            &&& r->0.work_key@ == work_key@
            &&& r->0.worker_id == table@[work_key@].worker_id
            &&& r->0.started == table@[work_key@].started
            &&& r->0.last_keepalive == table@[work_key@].last_keepalive
        },
{
}

/// An attempt to acquire takes the key exactly when it has no row, or an expired one.
pub proof fn law_a_key_without_a_living_row_is_taken(
    table: &mut LockTable,
    work_key: WorkKey,
    timeout: Duration,
    now: Timestamp,
    fresh: WorkerId,
    r: Result<Option<WorkerId>, String>,
)
    requires
        call_ensures(LockTable::acquire, (table, &work_key, timeout, now, fresh), r),
    ensures
        is_attempt(old(table)@, work_key@, timeout, now, fresh, final(table)@, r),
{
}

/// A release removes the row of its own worker, and nothing else.
pub proof fn law_a_release_removes_its_own_row(
    table: &mut LockTable,
    work_key: WorkKey,
    worker_id: WorkerId,
    r: Vec<WorkKey>,
)
    requires
        call_ensures(LockTable::release, (table, &work_key, worker_id), r),
    ensures
        is_letting_go(old(table)@, work_key@, worker_id, final(table)@, r@),
{
}

/// A keep-alive renews the row of its own worker, and nothing else.
pub proof fn law_a_keepalive_renews_its_own_row(
    table: &mut LockTable,
    work_key: WorkKey,
    worker_id: WorkerId,
    now: Timestamp,
    r: Vec<WorkKey>,
)
    requires
        call_ensures(LockTable::keep_alive, (table, &work_key, worker_id, now), r),
    ensures
        is_renewal(old(table)@, work_key@, worker_id, now, final(table)@, r@),
{
}

/// A statement does what it is called: it takes, lets go or renews, and gives what that gives.
pub proof fn law_a_statement_does_what_it_is_called(
    table: &mut LockTable,
    statement: Statement,
    now: Timestamp,
    fresh: WorkerId,
    r: StatementOutcome,
)
    requires
        call_ensures(LockTable::execute, (table, &statement, now, fresh), r),
    ensures
        statement matches Statement::Acquire { work_key, keepalive_timeout } ==> r is Worker
            && is_attempt(
            old(table)@,
            work_key@,
            keepalive_timeout,
            now,
            fresh,
            final(table)@,
            r->Worker_0,
        ),
        statement matches Statement::Release { work_key, worker_id } ==> r is Keys && r->Keys_0 is Ok
            && is_letting_go(
            old(table)@,
            work_key@,
            worker_id,
            final(table)@,
            r->Keys_0->Ok_0@,
        ),
        statement matches Statement::KeepAlive { work_key, worker_id } ==> r is Keys
            && r->Keys_0 is Ok && is_renewal(
            old(table)@,
            work_key@,
            worker_id,
            now,
            final(table)@,
            r->Keys_0->Ok_0@,
        ),
{
}

/// Who takes a key holds it: a second attempt is refused until the time-out has passed, and
/// succeeds after that.
pub proof fn law_a_taken_key_is_refused_until_the_timeout(
    first: &mut LockTable,
    second: &mut LockTable,
    work_key: WorkKey,
    timeout: Duration,
    now: Timestamp,
    later: Timestamp,
    worker: WorkerId,
    other: WorkerId,
    r1: Result<Option<WorkerId>, String>,
    r2: Result<Option<WorkerId>, String>,
)
    requires
        call_ensures(LockTable::acquire, (first, &work_key, timeout, now, worker), r1),
        call_ensures(LockTable::acquire, (second, &work_key, timeout, later, other), r2),
        final(first)@ == old(second)@,
        r1 == Ok::<Option<WorkerId>, String>(Some(worker)),
    ensures
        later <= now + whole_micros(timeout) ==> {
            &&& r2 == Ok::<Option<WorkerId>, String>(None)
            &&& has_row(final(second)@, work_key@, worker)
        },
        later > now + whole_micros(timeout) ==> {
            &&& r2 == Ok::<Option<WorkerId>, String>(Some(other))
            &&& has_row(final(second)@, work_key@, other)
        },
{
}

/// Each keep-alive of the holder puts the end of the lock off: only when the time-out has passed
/// since then can the key be taken.
pub proof fn law_a_keepalive_puts_the_end_off(
    first: &mut LockTable,
    second: &mut LockTable,
    work_key: WorkKey,
    timeout: Duration,
    now: Timestamp,
    later: Timestamp,
    worker: WorkerId,
    other: WorkerId,
    keys: Vec<WorkKey>,
    r: Result<Option<WorkerId>, String>,
)
    requires
        call_ensures(LockTable::keep_alive, (first, &work_key, worker, now), keys),
        call_ensures(LockTable::acquire, (second, &work_key, timeout, later, other), r),
        final(first)@ == old(second)@,
        has_row(old(first)@, work_key@, worker),
        can_be_bound(timeout),
    ensures
        r == Ok::<Option<WorkerId>, String>(
            if later > now + whole_micros(timeout) {
                Some(other)
            } else {
                None
            },
        ),
{
}

/// What a holder has let go can be taken at once.
pub proof fn law_a_key_that_was_let_go_can_be_taken(
    first: &mut LockTable,
    second: &mut LockTable,
    work_key: WorkKey,
    timeout: Duration,
    now: Timestamp,
    worker: WorkerId,
    other: WorkerId,
    keys: Vec<WorkKey>,
    r: Result<Option<WorkerId>, String>,
)
    requires
        call_ensures(LockTable::release, (first, &work_key, worker), keys),
        call_ensures(LockTable::acquire, (second, &work_key, timeout, now, other), r),
        final(first)@ == old(second)@,
        has_row(old(first)@, work_key@, worker),
        can_be_bound(timeout),
    ensures
        r == Ok::<Option<WorkerId>, String>(Some(other)),
        has_row(final(second)@, work_key@, other),
{
}

/// The statements as they are sent.
pub proof fn law_statements_are_sent_as_written(statement: Statement, r: &'static str)
    requires
        call_ensures(Statement::sql, (&statement,), r),
    ensures
        statement is Acquire ==> r@
            == "
WITH upsert AS (
    INSERT INTO work_locks (work_key)
    VALUES ($1)
    ON CONFLICT (work_key)
    DO UPDATE
        SET worker_id          = EXCLUDED.worker_id,
            started            = now(),
            last_keepalive     = now()
        WHERE work_locks.last_keepalive + $2::interval < now()
    RETURNING work_locks.worker_id AS worker_id
)
SELECT worker_id FROM upsert;
    "@,
        statement is Release ==> r@
            == "
DELETE FROM work_locks WHERE work_key = $1 AND worker_id = $2 RETURNING work_key
    "@,
        statement is KeepAlive ==> r@
            == "
UPDATE work_locks SET last_keepalive = now() WHERE work_key = $1 AND worker_id = $2 RETURNING work_key
    "@,
{
}

/// The error is the driver's report on the statement.
pub open spec fn is_report_on(error: DatabaseError, sql: Seq<char>, reported: String) -> bool {
    &&& error matches DatabaseError::Query { query, error: told }
    &&& query@ == sql
    &&& told == reported
}

/// What an attempt to acquire gave is handed on; a failure is told with the text of the statement.
pub proof fn law_an_attempt_is_handed_on(
    statement: Statement,
    sql: &'static str,
    outcome: Result<Option<WorkerId>, String>,
    r: Result<Option<WorkerId>, DatabaseError>,
)
    requires
        statement is Acquire,
        call_ensures(Statement::sql, (&statement,), sql),
        call_ensures(crate::work_lock::statements::acquire_result, (outcome,), r),
    ensures
        outcome matches Ok(worker_id) ==> r is Ok && r->Ok_0 == worker_id,
        outcome matches Err(reported) ==> r is Err && is_report_on(r->Err_0, sql@, reported),
{
}

/// A release or a keep-alive succeeds exactly when a row was found. Without one, the complaint
/// names the key and the worker; a failure is told with the text of the statement.
pub proof fn law_a_missing_row_is_a_failed_precondition(
    release: Statement,
    keep_alive: Statement,
    release_sql: &'static str,
    keep_alive_sql: &'static str,
    work_key: WorkKey,
    worker_id: WorkerId,
    outcome: Result<Vec<WorkKey>, String>,
    released: Result<(), DatabaseError>,
    kept_alive: Result<(), DatabaseError>,
)
    requires
        release is Release,
        keep_alive is KeepAlive,
        call_ensures(Statement::sql, (&release,), release_sql),
        call_ensures(Statement::sql, (&keep_alive,), keep_alive_sql),
        call_ensures(
            crate::work_lock::statements::release_result,
            (&work_key, worker_id, outcome),
            released,
        ),
        call_ensures(
            crate::work_lock::statements::keep_alive_result,
            (&work_key, worker_id, outcome),
            kept_alive,
        ),
    ensures
        released is Ok <==> outcome is Ok && outcome->Ok_0@.len() > 0,
        kept_alive is Ok <==> outcome is Ok && outcome->Ok_0@.len() > 0,
        outcome is Ok && outcome->Ok_0@.len() == 0 ==> {
            &&& released->Err_0 is FailedPrecondition
            &&& released->Err_0->FailedPrecondition_0@
                == "Tried to release nonexistent lock for work_key="@ + work_key@ + ", worker_id="@
                + crate::ids::hyphenated(worker_id.bits)
            &&& kept_alive->Err_0 is FailedPrecondition
            &&& kept_alive->Err_0->FailedPrecondition_0@
                == "BUG: Tried to keep alive nonexistent lock for work_key="@ + work_key@
                + ", worker_id="@ + crate::ids::hyphenated(worker_id.bits)
                + " worker likely was not sending keep-alives frequently enough."@
        },
        outcome matches Err(reported) ==> {
            &&& is_report_on(released->Err_0, release_sql@, reported)
            &&& is_report_on(kept_alive->Err_0, keep_alive_sql@, reported)
        },
{
}

} // verus!
