//! The statements that the manager runs on the table `work_locks`, and what
//! their outcomes mean.

use crate::time::Duration;
use crate::work_lock::errors::{DatabaseError, WorkKey, WorkerId};
use vstd::prelude::*;

verus! {

/// Takes the lock if no row has the key, or if the row's last keep-alive is older than the
/// time-out. Binds the key and the time-out; gives the worker, or no row.
pub const ACQUIRE_SQL: &'static str =
    "
WITH upsert AS (
    INSERT INTO work_locks (work_key)
    VALUES ($1)
    ON CONFLICT (work_key)
    DO UPDATE
        SET worker_id          = EXCLUDED.worker_id,
            started            = now(),
            last_keepalive     = now()
        WHERE work_locks.last_keepalive + $2::interval < now()
    RETURNING work_locks.worker_id AS worker_id
)
SELECT worker_id FROM upsert;
    ";

/// Removes the row of a key and a worker. Binds both; gives the key, or no row.
pub const RELEASE_SQL: &'static str =
    "
DELETE FROM work_locks WHERE work_key = $1 AND worker_id = $2 RETURNING work_key
    ";

/// Renews the row of a key and a worker. Binds both; gives the key, or no row.
pub const KEEP_ALIVE_SQL: &'static str =
    "
UPDATE work_locks SET last_keepalive = now() WHERE work_key = $1 AND worker_id = $2 RETURNING work_key
    ";

/// A statement with the values that it binds, in their order.
#[derive(Debug)]
pub enum Statement {
    Acquire { work_key: WorkKey, keepalive_timeout: Duration },
    Release { work_key: WorkKey, worker_id: WorkerId },
    KeepAlive { work_key: WorkKey, worker_id: WorkerId },
}

impl Statement {
    /// The text of the statement.
    pub open spec fn text(self) -> Seq<char> {
        match self {
            Statement::Acquire { .. } => ACQUIRE_SQL@,
            Statement::Release { .. } => RELEASE_SQL@,
            Statement::KeepAlive { .. } => KEEP_ALIVE_SQL@,
        }
    }

    /// The text of the statement.
    pub fn sql(&self) -> (r: &'static str)
        ensures
            r@ == self.text(),
    {
        match self {
            Statement::Acquire { .. } => ACQUIRE_SQL,
            Statement::Release { .. } => RELEASE_SQL,
            Statement::KeepAlive { .. } => KEEP_ALIVE_SQL,
        }
    }
}

/// The rows that a statement gave, or the driver's report of its failure.
#[derive(Debug)]
pub enum StatementOutcome {
    /// Of [`Statement::Acquire`].
    Worker(Result<Option<WorkerId>, String>),
    /// Of [`Statement::Release`] and [`Statement::KeepAlive`].
    Keys(Result<Vec<WorkKey>, String>),
}

/// `result` is the failure of the statement with this text.
pub open spec fn is_query_error(result: DatabaseError, sql: Seq<char>, error: String) -> bool {
    result matches DatabaseError::Query { query, error: reported } && query@ == sql && reported
        == error
}

fn query_error(sql: &str, error: String) -> (r: DatabaseError)
    ensures
        is_query_error(r, sql@, error),
{
    DatabaseError::Query { query: sql.to_owned(), error }
}

/// `result` is what running [`Statement::Acquire`] came to.
pub open spec fn is_acquire_result(
    outcome: Result<Option<WorkerId>, String>,
    result: Result<Option<WorkerId>, DatabaseError>,
) -> bool {
    match outcome {
        Ok(worker_id) => result == Ok::<Option<WorkerId>, DatabaseError>(worker_id),
        Err(error) => result is Err && is_query_error(result->Err_0, ACQUIRE_SQL@, error),
    }
}

/// What running [`Statement::Acquire`] came to: the worker that holds the lock now, or `None` if
/// another one holds it.
pub fn acquire_result(outcome: Result<Option<WorkerId>, String>) -> (r: Result<
    Option<WorkerId>,
    DatabaseError,
>)
    ensures
        is_acquire_result(outcome, r),
{
    match outcome {
        Ok(worker_id) => Ok(worker_id),
        Err(error) => Err(query_error(ACQUIRE_SQL, error)),
    }
}

/// The complaint about a release without a row.
pub open spec fn release_complaint(work_key: Seq<char>, worker_id: WorkerId) -> Seq<char> {
    "Tried to release nonexistent lock for work_key="@ + work_key + ", worker_id="@
        + worker_id.text()
}

/// `result` is what running a statement that must find its row came to.
pub open spec fn is_row_result(
    sql: Seq<char>,
    complaint: Seq<char>,
    outcome: Result<Vec<WorkKey>, String>,
    result: Result<(), DatabaseError>,
) -> bool {
    match outcome {
        Ok(keys) => if keys@.len() == 0 {
            result matches Err(DatabaseError::FailedPrecondition(message)) && message@ == complaint
        } else {
            result == Ok::<(), DatabaseError>(())
        },
        Err(error) => result is Err && is_query_error(result->Err_0, sql, error),
    }
}

/// `result` is what running [`Statement::Release`] came to.
pub open spec fn is_release_result(
    work_key: Seq<char>,
    worker_id: WorkerId,
    outcome: Result<Vec<WorkKey>, String>,
    result: Result<(), DatabaseError>,
) -> bool {
    is_row_result(RELEASE_SQL@, release_complaint(work_key, worker_id), outcome, result)
}

/// What running [`Statement::Release`] came to; it must have removed a row.
pub fn release_result(
    work_key: &WorkKey,
    worker_id: WorkerId,
    outcome: Result<Vec<WorkKey>, String>,
) -> (r: Result<(), DatabaseError>)
    ensures
        is_release_result(work_key@, worker_id, outcome, r),
{
    match outcome {
        Ok(deleted) => {
            if deleted.len() == 0 {
                let mut message: String = "Tried to release nonexistent lock for work_key=".to_owned();
                message.append(work_key.as_str());
                message.append(", worker_id=");
                message.append(worker_id.to_text().as_str());
                Err(DatabaseError::FailedPrecondition(message))
            } else {
                Ok(())
            }
        },
        Err(error) => Err(query_error(RELEASE_SQL, error)),
    }
}

/// The complaint about a keep-alive without a row. The worker must have been alive, but did not
/// send keep-alives within the time-out.
pub open spec fn keep_alive_complaint(work_key: Seq<char>, worker_id: WorkerId) -> Seq<char> {
    "BUG: Tried to keep alive nonexistent lock for work_key="@ + work_key + ", worker_id="@
        + worker_id.text()
        + " worker likely was not sending keep-alives frequently enough."@
}

/// `result` is what running [`Statement::KeepAlive`] came to.
pub open spec fn is_keep_alive_result(
    work_key: Seq<char>,
    worker_id: WorkerId,
    outcome: Result<Vec<WorkKey>, String>,
    result: Result<(), DatabaseError>,
) -> bool {
    is_row_result(KEEP_ALIVE_SQL@, keep_alive_complaint(work_key, worker_id), outcome, result)
}

/// What running [`Statement::KeepAlive`] came to; it must have renewed a row.
pub fn keep_alive_result(
    work_key: &WorkKey,
    worker_id: WorkerId,
    outcome: Result<Vec<WorkKey>, String>,
) -> (r: Result<(), DatabaseError>)
    ensures
        is_keep_alive_result(work_key@, worker_id, outcome, r),
{
    match outcome {
        Ok(updated) => {
            if updated.len() == 0 {
                let mut message: String =
                    "BUG: Tried to keep alive nonexistent lock for work_key=".to_owned();
                message.append(work_key.as_str());
                message.append(", worker_id=");
                message.append(worker_id.to_text().as_str());
                message.append(" worker likely was not sending keep-alives frequently enough.");
                Err(DatabaseError::FailedPrecondition(message))
            } else {
                Ok(())
            }
        },
        Err(error) => Err(query_error(KEEP_ALIVE_SQL, error)),
    }
}

} // verus!
