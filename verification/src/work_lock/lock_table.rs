//! The rows of `work_locks`, and what each statement does to them.

use crate::time::{Duration, Timestamp};
use crate::work_lock::errors::{WorkKey, WorkerId};
use crate::work_lock::statements::{Statement, StatementOutcome};
use vstd::prelude::*;

verus! {

/// One row: the lock on a unit of work.
#[derive(Debug)]
pub struct LockRow {
    pub work_key: WorkKey,
    pub worker_id: WorkerId,
    pub started: Timestamp,
    pub last_keepalive: Timestamp,
}

/// A row without its key.
pub struct Lock {
    pub worker_id: WorkerId,
    pub started: Timestamp,
    pub last_keepalive: Timestamp,
}

/// The rows by their keys.
pub type Locks = Map<Seq<char>, Lock>;

/// No keep-alive has come for longer than the time-out. Times are added without a bound here.
pub open spec fn expired(lock: Lock, timeout: Duration, now: Timestamp) -> bool {
    lock.last_keepalive + timeout.micros() < now
}

/// Nobody holds the key, or its holder has expired.
pub open spec fn is_free(
    locks: Locks,
    work_key: Seq<char>,
    timeout: Duration,
    now: Timestamp,
) -> bool {
    locks.contains_key(work_key) ==> expired(locks[work_key], timeout, now)
}

/// This worker's row is in the table.
pub open spec fn is_held_by(locks: Locks, work_key: Seq<char>, worker_id: WorkerId) -> bool {
    locks.contains_key(work_key) && locks[work_key].worker_id == worker_id
}

/// The rows after an attempt to acquire: a free key goes to the fresh worker. A time-out that is no
/// interval cannot be bound to the statement, which then does nothing.
pub open spec fn acquired(
    locks: Locks,
    work_key: Seq<char>,
    timeout: Duration,
    now: Timestamp,
    fresh: WorkerId,
) -> Locks {
    if timeout.is_interval() && is_free(locks, work_key, timeout, now) {
        locks.insert(work_key, Lock { worker_id: fresh, started: now, last_keepalive: now })
    } else {
        locks
    }
}

/// What the driver says of a time-out that it cannot bind: one with a part of a microsecond, or one
/// whose microseconds are too many.
pub open spec fn bind_complaint(timeout: Duration) -> Seq<char> {
    if timeout.is_whole_micros() {
        "error occurred while encoding a value: Encoding argument $2 failed: out of range integral type conversion attempted"@
    } else {
        "error occurred while encoding a value: Encoding argument $2 failed: PostgreSQL `INTERVAL` does not support nanoseconds precision"@
    }
}

/// `result` is what an attempt to acquire gives on these rows.
pub open spec fn is_acquire_outcome(
    locks: Locks,
    work_key: Seq<char>,
    timeout: Duration,
    now: Timestamp,
    fresh: WorkerId,
    result: Result<Option<WorkerId>, String>,
) -> bool {
    if timeout.is_interval() {
        result == Ok::<Option<WorkerId>, String>(
            if is_free(locks, work_key, timeout, now) {
                Some(fresh)
            } else {
                None
            },
        )
    } else {
        result matches Err(error) && error@ == bind_complaint(timeout)
    }
}

/// The rows after a release: only the holder's row goes.
pub open spec fn released(locks: Locks, work_key: Seq<char>, worker_id: WorkerId) -> Locks {
    if is_held_by(locks, work_key, worker_id) {
        locks.remove(work_key)
    } else {
        locks
    }
}

/// The rows after a keep-alive: only the holder's row is renewed, expired or not.
pub open spec fn kept_alive(
    locks: Locks,
    work_key: Seq<char>,
    worker_id: WorkerId,
    now: Timestamp,
) -> Locks {
    if is_held_by(locks, work_key, worker_id) {
        locks.insert(work_key, Lock { last_keepalive: now, ..locks[work_key] })
    } else {
        locks
    }
}

/// The keys that a release or a keep-alive gives back.
pub open spec fn is_affected(
    locks: Locks,
    work_key: Seq<char>,
    worker_id: WorkerId,
    keys: Seq<WorkKey>,
) -> bool {
    if is_held_by(locks, work_key, worker_id) {
        keys.len() == 1 && keys[0]@ == work_key
    } else {
        keys.len() == 0
    }
}

/// The rows after a statement.
pub open spec fn executed(
    locks: Locks,
    statement: Statement,
    now: Timestamp,
    fresh: WorkerId,
) -> Locks {
    match statement {
        Statement::Acquire { work_key, keepalive_timeout } => acquired(
            locks,
            work_key@,
            keepalive_timeout,
            now,
            fresh,
        ),
        Statement::Release { work_key, worker_id } => released(locks, work_key@, worker_id),
        Statement::KeepAlive { work_key, worker_id } => kept_alive(
            locks,
            work_key@,
            worker_id,
            now,
        ),
    }
}

/// `outcome` is what a statement gives on these rows.
pub open spec fn is_outcome(
    locks: Locks,
    statement: Statement,
    now: Timestamp,
    fresh: WorkerId,
    outcome: StatementOutcome,
) -> bool {
    match statement {
        Statement::Acquire { work_key, keepalive_timeout } => {
            &&& outcome matches StatementOutcome::Worker(result)
            &&& is_acquire_outcome(locks, work_key@, keepalive_timeout, now, fresh, result)
        },
        Statement::Release { work_key, worker_id } => {
            &&& outcome matches StatementOutcome::Keys(Ok(keys))
            &&& is_affected(locks, work_key@, worker_id, keys@)
        },
        Statement::KeepAlive { work_key, worker_id } => {
            &&& outcome matches StatementOutcome::Keys(Ok(keys))
            &&& is_affected(locks, work_key@, worker_id, keys@)
        },
    }
}

/// The table, held in memory.
#[derive(Debug)]
pub struct LockTable {
    rows: Vec<LockRow>,
}

impl View for LockTable {
    type V = Locks;

    closed spec fn view(&self) -> Locks {
        Map::new(
            |key: Seq<char>| exists|i: int| self.has_key_at(key, i),
            |key: Seq<char>| self.lock_at(choose|i: int| self.has_key_at(key, i)),
        )
    }
}

impl LockTable {
    spec fn has_key_at(self, key: Seq<char>, i: int) -> bool {
        0 <= i < self.rows@.len() && self.rows@[i].work_key@ == key
    }

    spec fn lock_at(self, i: int) -> Lock {
        Lock {
            worker_id: self.rows@[i].worker_id,
            started: self.rows@[i].started,
            last_keepalive: self.rows@[i].last_keepalive,
        }
    }

    /// The key is the primary key of the table: no two rows share one.
    #[verifier::type_invariant]
    spec fn has_distinct_keys(self) -> bool {
        forall|i: int, j: int|
            0 <= i < j < self.rows@.len() ==> #[trigger] self.rows@[i].work_key@
                != #[trigger] self.rows@[j].work_key@
    }

    proof fn lemma_at(self, key: Seq<char>, i: int)
        requires
            self.has_distinct_keys(),
            self.has_key_at(key, i),
        ensures
            self@.contains_key(key),
            self@[key] == self.lock_at(i),
    {
        let j = choose|j: int| self.has_key_at(key, j);
        assert(self.has_key_at(key, j));
        if i < j {
            assert(self.rows@[i].work_key@ != self.rows@[j].work_key@);
        } else if j < i {
            assert(self.rows@[j].work_key@ != self.rows@[i].work_key@);
        }
    }

    /// An empty table.
    pub fn new() -> (r: LockTable)
        ensures
            r@ == Map::<Seq<char>, Lock>::empty(),
    {
        let r = LockTable { rows: Vec::new() };
        assert(r@ =~= Map::<Seq<char>, Lock>::empty());
        r
    }

    fn position(&self, work_key: &WorkKey) -> (r: Option<usize>)
        ensures
            match r {
                Some(i) => self.has_key_at(work_key@, i as int) && self@.contains_key(work_key@)
                    && self@[work_key@] == self.lock_at(i as int),
                None => !self@.contains_key(work_key@),
            },
    {
        proof {
            use_type_invariant(self);
        }
        let mut i: usize = 0;
        while i < self.rows.len()
            invariant
                self.has_distinct_keys(),
                i <= self.rows@.len(),
                forall|j: int| 0 <= j < i ==> !self.has_key_at(work_key@, j),
            decreases self.rows@.len() - i,
        {
            if self.rows[i].work_key == *work_key {
                proof {
                    self.lemma_at(work_key@, i as int);
                }
                return Some(i);
            }
            i += 1;
        }
        None
    }

    /// The row of a key.
    pub fn get(&self, work_key: &WorkKey) -> (r: Option<&LockRow>)
        ensures
            match r {
                Some(row) => {
                    &&& self@.contains_key(work_key@)
                    &&& row.work_key@ == work_key@
                    &&& self@[work_key@] == (Lock {
                        worker_id: row.worker_id,
                        started: row.started,
                        last_keepalive: row.last_keepalive,
                    })
                },
                None => !self@.contains_key(work_key@),
            },
    {
        match self.position(work_key) {
            Some(i) => Some(&self.rows[i]),
            None => None,
        }
    }

    /// Runs [`Statement::Acquire`] at `now`; `fresh` is the worker that the database would name. A
    /// time-out that is no interval is refused.
    pub fn acquire(
        &mut self,
        work_key: &WorkKey,
        timeout: Duration,
        now: Timestamp,
        fresh: WorkerId,
    ) -> (r: Result<Option<WorkerId>, String>)
        ensures
            final(self)@ == acquired(old(self)@, work_key@, timeout, now, fresh),
            is_acquire_outcome(old(self)@, work_key@, timeout, now, fresh, r),
    {
        proof {
            use_type_invariant(&*self);
        }
        if !timeout.whole_micros() {
            return Err(
                "error occurred while encoding a value: Encoding argument $2 failed: PostgreSQL `INTERVAL` does not support nanoseconds precision".to_owned(),
            );
        }
        let timeout_micros: u128 = timeout.as_micros();
        if timeout_micros > i64::MAX as u128 {
            return Err(
                "error occurred while encoding a value: Encoding argument $2 failed: out of range integral type conversion attempted".to_owned(),
            );
        }
        let ghost before = *self;
        match self.position(work_key) {
            Some(i) => {
                let last_keepalive: u128 = self.rows[i].last_keepalive as u128;
                if last_keepalive + timeout_micros < now as u128 {
                    let row = LockRow {
                        work_key: work_key.clone(),
                        worker_id: fresh,
                        started: now,
                        last_keepalive: now,
                    };
                    let mut rows: Vec<LockRow> = Vec::new();
                    std::mem::swap(&mut rows, &mut self.rows);
                    rows.set(i, row);
                    proof {
                        before.lemma_replaced(LockTable { rows }, i as int, work_key@);
                    }
                    self.rows = rows;
                    Ok(Some(fresh))
                } else {
                    Ok(None)
                }
            },
            None => {
                let row = LockRow {
                    work_key: work_key.clone(),
                    worker_id: fresh,
                    started: now,
                    last_keepalive: now,
                };
                let mut rows: Vec<LockRow> = Vec::new();
                std::mem::swap(&mut rows, &mut self.rows);
                rows.push(row);
                proof {
                    before.lemma_pushed(LockTable { rows }, work_key@);
                }
                self.rows = rows;
                Ok(Some(fresh))
            },
        }
    }

    /// Runs [`Statement::Release`]; gives the keys of the removed rows.
    pub fn release(&mut self, work_key: &WorkKey, worker_id: WorkerId) -> (r: Vec<WorkKey>)
        ensures
            final(self)@ == released(old(self)@, work_key@, worker_id),
            is_affected(old(self)@, work_key@, worker_id, r@),
    {
        proof {
            use_type_invariant(&*self);
        }
        let ghost before = *self;
        let mut keys: Vec<WorkKey> = Vec::new();
        match self.position(work_key) {
            Some(i) => {
                if self.rows[i].worker_id == worker_id {
                    let mut rows: Vec<LockRow> = Vec::new();
                    std::mem::swap(&mut rows, &mut self.rows);
                    let row = rows.remove(i);
                    keys.push(row.work_key);
                    proof {
                        before.lemma_removed(LockTable { rows }, i as int, work_key@);
                    }
                    self.rows = rows;
                }
            },
            None => {},
        }
        keys
    }

    /// Runs [`Statement::KeepAlive`] at `now`; gives the keys of the renewed rows.
    pub fn keep_alive(&mut self, work_key: &WorkKey, worker_id: WorkerId, now: Timestamp) -> (r:
        Vec<WorkKey>)
        ensures
            final(self)@ == kept_alive(old(self)@, work_key@, worker_id, now),
            is_affected(old(self)@, work_key@, worker_id, r@),
    {
        proof {
            use_type_invariant(&*self);
        }
        let ghost before = *self;
        let mut keys: Vec<WorkKey> = Vec::new();
        match self.position(work_key) {
            Some(i) => {
                if self.rows[i].worker_id == worker_id {
                    let row = LockRow {
                        work_key: work_key.clone(),
                        worker_id,
                        started: self.rows[i].started,
                        last_keepalive: now,
                    };
                    let mut rows: Vec<LockRow> = Vec::new();
                    std::mem::swap(&mut rows, &mut self.rows);
                    rows.set(i, row);
                    keys.push(work_key.clone());
                    proof {
                        before.lemma_replaced(LockTable { rows }, i as int, work_key@);
                    }
                    self.rows = rows;
                }
            },
            None => {},
        }
        keys
    }

    /// Runs any statement at `now`.
    pub fn execute(&mut self, statement: &Statement, now: Timestamp, fresh: WorkerId) -> (r:
        StatementOutcome)
        ensures
            final(self)@ == executed(old(self)@, *statement, now, fresh),
            is_outcome(old(self)@, *statement, now, fresh, r),
    {
        match statement {
            Statement::Acquire { work_key, keepalive_timeout } => StatementOutcome::Worker(
                self.acquire(work_key, *keepalive_timeout, now, fresh),
            ),
            Statement::Release { work_key, worker_id } => StatementOutcome::Keys(
                Ok(self.release(work_key, *worker_id)),
            ),
            Statement::KeepAlive { work_key, worker_id } => StatementOutcome::Keys(
                Ok(self.keep_alive(work_key, *worker_id, now)),
            ),
        }
    }

    proof fn lemma_replaced(self, after: LockTable, at: int, key: Seq<char>)
        requires
            self.has_distinct_keys(),
            self.has_key_at(key, at),
            after.rows@.len() == self.rows@.len(),
            after.rows@[at].work_key@ == key,
            forall|i: int|
                0 <= i < self.rows@.len() && i != at ==> after.rows@[i] == self.rows@[i],
        ensures
            after.has_distinct_keys(),
            after@ == self@.insert(key, after.lock_at(at)),
    {
        assert forall|i: int, j: int| 0 <= i < j < after.rows@.len() implies #[trigger] after.rows@[i].work_key@
            != #[trigger] after.rows@[j].work_key@ by {
            assert(self.rows@[i].work_key@ != self.rows@[j].work_key@);
        }
        let expected = self@.insert(key, after.lock_at(at));
        assert forall|k: Seq<char>| after@.contains_key(k) <==> expected.contains_key(k) by {
            if after@.contains_key(k) {
                let i = choose|i: int| after.has_key_at(k, i);
                assert(after.has_key_at(k, i));
                assert(self.has_key_at(k, i));
            }
            if expected.contains_key(k) {
                if k == key {
                    assert(after.has_key_at(k, at));
                } else {
                    let i = choose|i: int| self.has_key_at(k, i);
                    assert(self.has_key_at(k, i));
                    assert(after.has_key_at(k, i));
                }
            }
        }
        assert forall|k: Seq<char>| after@.contains_key(k) implies #[trigger] after@[k] == expected[k] by {
            let i = choose|i: int| after.has_key_at(k, i);
            assert(after.has_key_at(k, i));
            after.lemma_at(k, i);
            if k == key {
                after.lemma_at(k, at);
            } else {
                assert(i != at);
                assert(self.has_key_at(k, i));
                self.lemma_at(k, i);
            }
        }
        assert(after@ =~= expected);
    }

    proof fn lemma_pushed(self, after: LockTable, key: Seq<char>)
        requires
            self.has_distinct_keys(),
            !self@.contains_key(key),
            after.rows@.len() == self.rows@.len() + 1,
            after.rows@.last().work_key@ == key,
            forall|i: int| 0 <= i < self.rows@.len() ==> after.rows@[i] == self.rows@[i],
        ensures
            after.has_distinct_keys(),
            after@ == self@.insert(key, after.lock_at(self.rows@.len() as int)),
    {
        let at = self.rows@.len() as int;
        assert forall|i: int, j: int| 0 <= i < j < after.rows@.len() implies #[trigger] after.rows@[i].work_key@
            != #[trigger] after.rows@[j].work_key@ by {
            if j == at {
                assert(!self.has_key_at(key, i));
            } else {
                assert(self.rows@[i].work_key@ != self.rows@[j].work_key@);
            }
        }
        let expected = self@.insert(key, after.lock_at(at));
        assert forall|k: Seq<char>| after@.contains_key(k) <==> expected.contains_key(k) by {
            if after@.contains_key(k) {
                let i = choose|i: int| after.has_key_at(k, i);
                assert(after.has_key_at(k, i));
                if i < at {
                    assert(self.has_key_at(k, i));
                }
            }
            if expected.contains_key(k) {
                if k == key {
                    assert(after.has_key_at(k, at));
                } else {
                    let i = choose|i: int| self.has_key_at(k, i);
                    assert(self.has_key_at(k, i));
                    assert(after.has_key_at(k, i));
                }
            }
        }
        assert forall|k: Seq<char>| after@.contains_key(k) implies #[trigger] after@[k] == expected[k] by {
            let i = choose|i: int| after.has_key_at(k, i);
            assert(after.has_key_at(k, i));
            after.lemma_at(k, i);
            if i < at {
                assert(self.has_key_at(k, i));
                self.lemma_at(k, i);
            }
        }
        assert(after@ =~= expected);
    }

    proof fn lemma_removed(self, after: LockTable, at: int, key: Seq<char>)
        requires
            self.has_distinct_keys(),
            self.has_key_at(key, at),
            after.rows@ == self.rows@.remove(at),
        ensures
            after.has_distinct_keys(),
            after@ == self@.remove(key),
    {
        assert forall|i: int| 0 <= i < after.rows@.len() implies #[trigger] after.rows@[i]
            == self.rows@[if i < at { i } else { i + 1 }] by {}
        assert forall|i: int, j: int| 0 <= i < j < after.rows@.len() implies #[trigger] after.rows@[i].work_key@
            != #[trigger] after.rows@[j].work_key@ by {
            let a = if i < at { i } else { i + 1 };
            let b = if j < at { j } else { j + 1 };
            assert(self.rows@[a].work_key@ != self.rows@[b].work_key@);
        }
        let expected = self@.remove(key);
        assert forall|k: Seq<char>| after@.contains_key(k) <==> expected.contains_key(k) by {
            if after@.contains_key(k) {
                let i = choose|i: int| after.has_key_at(k, i);
                assert(after.has_key_at(k, i));
                let a = if i < at { i } else { i + 1 };
                assert(self.has_key_at(k, a));
                self.lemma_at(k, a);
                if k == key {
                    if a < at {
                        assert(self.rows@[a].work_key@ != self.rows@[at].work_key@);
                    } else {
                        assert(self.rows@[at].work_key@ != self.rows@[a].work_key@);
                    }
                }
            }
            if expected.contains_key(k) {
                let i = choose|i: int| self.has_key_at(k, i);
                assert(self.has_key_at(k, i));
                assert(i != at);
                let b = if i < at { i } else { i - 1 };
                assert(after.has_key_at(k, b));
            }
        }
        assert forall|k: Seq<char>| after@.contains_key(k) implies #[trigger] after@[k] == expected[k] by {
            let i = choose|i: int| after.has_key_at(k, i);
            assert(after.has_key_at(k, i));
            after.lemma_at(k, i);
            let a = if i < at { i } else { i + 1 };
            assert(self.has_key_at(k, a));
            self.lemma_at(k, a);
        }
        assert(after@ =~= expected);
    }
}

} // verus!
