//! Why a lock could not be acquired, kept alive or released.

use crate::ids::Uuid;
use crate::work_lock::events::WorkLockFailure;
use vstd::prelude::*;

verus! {

/// The name of a unit of work.
pub type WorkKey = String;

/// The holder of a lock.
pub type WorkerId = Uuid;

/// A failure of the database, or of a condition that a statement relies on.
#[derive(Debug)]
pub enum DatabaseError {
    /// A row that had to exist did not.
    FailedPrecondition(String),
    Internal { message: String },
    /// No connection could be had from the pool.
    Acquire(String),
    /// The driver's report on a statement that failed.
    Query { query: String, error: String },
}

impl DatabaseError {
    /// What the error says.
    pub open spec fn text(self) -> Seq<char> {
        match self {
            DatabaseError::FailedPrecondition(message) => message@,
            DatabaseError::Internal { message } => "internal error: "@ + message@,
            DatabaseError::Acquire(error) => error@,
            DatabaseError::Query { query, error } => error@,
        }
    }

    /// What the error says.
    pub fn message(&self) -> (r: String)
        ensures
            r@ == self.text(),
    {
        match self {
            DatabaseError::FailedPrecondition(message) => message.clone(),
            DatabaseError::Internal { message } => {
                let mut text: String = "internal error: ".to_owned();
                text.append(message.as_str());
                text
            },
            DatabaseError::Acquire(error) => error.clone(),
            DatabaseError::Query { query: _, error } => error.clone(),
        }
    }
}

/// Why `try_acquire_lock` gave no lock.
#[derive(Debug)]
pub enum AcquireLockError {
    WorkAlreadyLocked(WorkKey),
    Database(DatabaseError),
    /// The command queue is full: more than
    /// [`COMMAND_BUFFER_SIZE`](crate::work_lock::manager::COMMAND_BUFFER_SIZE) commands wait for
    /// the manager. It owns a connection of its own, so this only happens when the database is
    /// down, or so slow that simple updates of the table are blocked.
    WorkLockManagerSend(String),
    /// The manager dropped the command without an answer.
    WorkLockManagerReply(String),
    Timeout(String),
}

impl AcquireLockError {
    /// What the error says.
    pub open spec fn text(self) -> Seq<char> {
        match self {
            AcquireLockError::WorkAlreadyLocked(work_key) => "work is already locked for "@
                + work_key@,
            AcquireLockError::Database(error) => error.text(),
            AcquireLockError::WorkLockManagerSend(error) =>
                "error sending AcquireLock command to WorkLockManager, database is likely overloaded: "@
                    + error@,
            AcquireLockError::WorkLockManagerReply(error) =>
                "BUG: error receiving AcquireLock reply from WorkLockManager, database connections are likely failing: "@
                    + error@,
            AcquireLockError::Timeout(error) => error@,
        }
    }

    /// What the error says.
    pub fn message(&self) -> (r: String)
        ensures
            r@ == self.text(),
    {
        match self {
            AcquireLockError::WorkAlreadyLocked(work_key) => {
                let mut text: String = "work is already locked for ".to_owned();
                text.append(work_key.as_str());
                text
            },
            AcquireLockError::Database(error) => error.message(),
            AcquireLockError::WorkLockManagerSend(error) => {
                let mut text: String =
                    "error sending AcquireLock command to WorkLockManager, database is likely overloaded: ".to_owned();
                text.append(error.as_str());
                text
            },
            AcquireLockError::WorkLockManagerReply(error) => {
                let mut text: String =
                    "BUG: error receiving AcquireLock reply from WorkLockManager, database connections are likely failing: ".to_owned();
                text.append(error.as_str());
                text
            },
            AcquireLockError::Timeout(error) => error.clone(),
        }
    }
}

impl From<DatabaseError> for AcquireLockError {
    fn from(error: DatabaseError) -> (r: AcquireLockError) {
        AcquireLockError::Database(error)
    }
}

impl vstd::std_specs::convert::FromSpecImpl<DatabaseError> for AcquireLockError {
    open spec fn obeys_from_spec() -> bool {
        true
    }

    open spec fn from_spec(error: DatabaseError) -> AcquireLockError {
        AcquireLockError::Database(error)
    }
}

/// Why a keep-alive did not reach the lock's row.
#[derive(Debug)]
pub enum KeepAliveError {
    /// The row is gone, or belongs to another worker.
    LockLost(String),
    Database(DatabaseError),
    /// See [`AcquireLockError::WorkLockManagerSend`].
    WorkLockManagerSend(String),
    WorkLockManagerReply(String),
}

impl KeepAliveError {
    /// What the error says.
    pub open spec fn text(self) -> Seq<char> {
        match self {
            KeepAliveError::LockLost(message) => message@,
            KeepAliveError::Database(error) => error.text(),
            KeepAliveError::WorkLockManagerSend(error) =>
                "error sending KeepAlive command to WorkLockManager, database is likely overloaded: "@
                    + error@,
            KeepAliveError::WorkLockManagerReply(error) =>
                "BUG: error receiving KeepAlive reply from WorkLockManager, database connections are likely failing: "@
                    + error@,
        }
    }

    /// What the error says.
    pub fn message(&self) -> (r: String)
        ensures
            r@ == self.text(),
    {
        match self {
            KeepAliveError::LockLost(message) => message.clone(),
            KeepAliveError::Database(error) => error.message(),
            KeepAliveError::WorkLockManagerSend(error) => {
                let mut text: String =
                    "error sending KeepAlive command to WorkLockManager, database is likely overloaded: ".to_owned();
                text.append(error.as_str());
                text
            },
            KeepAliveError::WorkLockManagerReply(error) => {
                let mut text: String =
                    "BUG: error receiving KeepAlive reply from WorkLockManager, database connections are likely failing: ".to_owned();
                text.append(error.as_str());
                text
            },
        }
    }

    /// The kind of failure that this error is counted as.
    pub open spec fn failure_kind(self) -> WorkLockFailure {
        match self {
            KeepAliveError::LockLost(_) => WorkLockFailure::LockLost,
            KeepAliveError::Database(_) => WorkLockFailure::Database,
            KeepAliveError::WorkLockManagerSend(_) => WorkLockFailure::CommandDispatch,
            KeepAliveError::WorkLockManagerReply(_) => WorkLockFailure::CommandReply,
        }
    }

    /// The kind of failure that this error is counted as.
    pub fn failure(&self) -> (r: WorkLockFailure)
        ensures
            r == self.failure_kind(),
    {
        match self {
            KeepAliveError::LockLost(_) => WorkLockFailure::LockLost,
            KeepAliveError::Database(_) => WorkLockFailure::Database,
            KeepAliveError::WorkLockManagerSend(_) => WorkLockFailure::CommandDispatch,
            KeepAliveError::WorkLockManagerReply(_) => WorkLockFailure::CommandReply,
        }
    }
}

impl From<DatabaseError> for KeepAliveError {
    fn from(error: DatabaseError) -> (r: KeepAliveError) {
        KeepAliveError::Database(error)
    }
}

impl vstd::std_specs::convert::FromSpecImpl<DatabaseError> for KeepAliveError {
    open spec fn obeys_from_spec() -> bool {
        true
    }

    open spec fn from_spec(error: DatabaseError) -> KeepAliveError {
        KeepAliveError::Database(error)
    }
}

} // verus!
