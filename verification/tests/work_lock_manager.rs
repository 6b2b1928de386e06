use fleet_core::ids::Uuid;
use fleet_core::time::Duration;
use fleet_core::work_lock::errors::{AcquireLockError, DatabaseError, KeepAliveError};
use fleet_core::work_lock::events::{
    FailureCounter, WorkLockEvent, WorkLockFailure, WorkLockOperation,
};
use fleet_core::work_lock::handle::{
    start, Call, KeepaliveConfig, KeepaliveEvent, KeepaliveLoop, KeepaliveState, KeepaliveStep,
    StartedManager, WorkLock, WorkLockManagerHandle,
};
use fleet_core::work_lock::lock_table::LockTable;
use fleet_core::work_lock::manager::{
    connection_is_healthy, serve, step, ManagerAction, ManagerEvent, ManagerState, NextStep, Reply,
    WorkLockManagerCommand, COMMAND_BUFFER_SIZE, HEALTH_SQL,
};
use fleet_core::work_lock::statements::{
    acquire_result, keep_alive_result, release_result, Statement, StatementOutcome, ACQUIRE_SQL,
    KEEP_ALIVE_SQL, RELEASE_SQL,
};

/// A manager whose database is a table in memory and whose clock is set by hand.
struct Sim {
    handle: WorkLockManagerHandle,
    timeout: Duration,
    table: LockTable,
    now: u64,
    next_worker: u128,
    counter: FailureCounter,
}

impl Sim {
    fn new(config: KeepaliveConfig) -> Sim {
        let started = start(Ok(()), config).unwrap();
        Sim {
            handle: started.handle,
            timeout: started.keepalive_timeout,
            table: LockTable::new(),
            now: 1_000_000,
            next_worker: 1,
            counter: FailureCounter::new(),
        }
    }

    fn report(&mut self, event: Option<WorkLockEvent>) {
        if let Some(event) = event {
            self.counter.increment(&event.record());
        }
    }

    fn run(&mut self, command: WorkLockManagerCommand) -> Option<Reply> {
        let fresh = Uuid::from_u128(self.next_worker);
        self.next_worker += 1;
        let (reply, event) = serve(&mut self.table, command, self.timeout, self.now, fresh);
        self.report(event);
        reply
    }

    fn acquire(&mut self, key: &str) -> Result<WorkLock, AcquireLockError> {
        let work_key = key.to_string();
        let command = self.handle.acquire_command(&work_key);
        match self.run(command) {
            Some(Reply::Acquire(result)) => {
                self.handle.try_acquire_lock(work_key, Call::Replied(result))
            }
            _ => panic!("an acquire is always answered"),
        }
    }

    fn release(&mut self, lock: WorkLock) {
        let command = lock.release_command();
        assert!(self.run(command).is_none());
    }

    /// Lets the loop of a lock tick once.
    fn tick(&mut self, keepalive: &mut KeepaliveLoop) {
        let action = keepalive.step(KeepaliveEvent::Tick);
        if let KeepaliveStep::Send(command) = action.next {
            let result = match self.run(command) {
                Some(Reply::KeepAlive(result)) => {
                    self.handle.keep_lock_alive(Call::Replied(result))
                }
                _ => panic!("a keep-alive is always answered"),
            };
            let action = keepalive.step(KeepaliveEvent::Replied(result));
            self.report(action.report);
        }
    }
}

fn millis(interval: u64, timeout: u64) -> KeepaliveConfig {
    KeepaliveConfig {
        interval: Duration::from_millis(interval),
        timeout: Duration::from_millis(timeout),
    }
}

#[test]
fn test_exclusivity() {
    let mut sim = Sim::new(KeepaliveConfig::default());
    let lock_1 = sim.acquire("work_key_1").unwrap();
    match sim.acquire("work_key_1") {
        Err(AcquireLockError::WorkAlreadyLocked(key)) => assert_eq!(key, "work_key_1"),
        _ => panic!("Should not be able to acquire another lock while one is active"),
    }
    sim.release(lock_1);

    let _lock_1 = sim
        .acquire("work_key_1")
        .expect("Should be able to acquire a lock again if the other has gone out of scope");
    let _lock_2 = sim
        .acquire("work_key_2")
        .expect("Should be able to acquire a lock with a different key while another is active");

    for i in 0..(COMMAND_BUFFER_SIZE * 2) {
        match sim.acquire("work_key_3") {
            Ok(lock) => sim.release(lock),
            Err(_) => panic!(
                "Lock failed to be acquired after the previous was dropped, after {i} iterations"
            ),
        }
    }
    assert_eq!(
        sim.counter
            .get(WorkLockOperation::Release, WorkLockFailure::LockLost),
        0
    );
}

#[test]
fn test_expiry() {
    // The timeout is lower than the interval, so the keep-alives come too late.
    let mut sim = Sim::new(millis(500, 100));
    let old_lock = sim.acquire("work_key_1").unwrap();
    let mut old_loop = old_lock.keepalive_loop();

    let mut new_lock = None;
    for _ in 0..200 {
        sim.now += 10_000;
        if let Ok(lock) = sim.acquire("work_key_1") {
            new_lock = Some(lock);
            break;
        }
    }
    let new_lock = new_lock.expect("Lock should have expired by now");
    assert_eq!(sim.now, 1_000_000 + 110_000);
    let mut new_loop = new_lock.keepalive_loop();

    sim.now += 500_000;
    sim.tick(&mut old_loop);
    sim.tick(&mut new_loop);
    sim.now += 500_000;
    sim.tick(&mut old_loop);
    sim.tick(&mut new_loop);

    assert!(
        !old_lock.is_alive(&old_loop),
        "Old lock should be dead, since the new lock has taken its place."
    );
    assert!(new_lock.is_alive(&new_loop), "New lock should be alive still");
    assert_eq!(
        sim.counter
            .get(WorkLockOperation::KeepAlive, WorkLockFailure::LockLost) as f64,
        1.0,
        "the expired worker should report one keepalive lock loss",
    );

    // The late release of the old lock does the new one no harm.
    sim.release(old_lock);
    assert_eq!(
        sim.counter
            .get(WorkLockOperation::Release, WorkLockFailure::LockLost),
        1
    );
    let row = sim.table.get(&"work_key_1".to_string()).unwrap();
    assert_eq!(row.worker_id, new_lock.worker_id);
}

#[test]
fn a_keepalive_puts_off_expiry() {
    let mut sim = Sim::new(millis(100, 500));
    let lock = sim.acquire("k").unwrap();
    let mut keepalive = lock.keepalive_loop();
    sim.now += 500_000;
    assert!(sim.acquire("k").is_err(), "the lock is not older than the time-out yet");
    sim.tick(&mut keepalive);
    assert!(lock.is_alive(&keepalive));
    let row = sim.table.get(&"k".to_string()).unwrap();
    assert_eq!((row.started, row.last_keepalive), (1_000_000, 1_500_000));
    sim.now += 500_000;
    assert!(sim.acquire("k").is_err());
    sim.now += 1;
    let next = sim.acquire("k").unwrap();
    assert_ne!(next.worker_id, lock.worker_id);
}

fn acquire(key: &str) -> WorkLockManagerCommand {
    WorkLockManagerCommand::AcquireLock {
        work_key: key.to_string(),
    }
}

fn health(read_only: Result<bool, String>) -> ManagerEvent {
    ManagerEvent::Health {
        read_only,
        caller_gone: false,
    }
}

fn started() -> StartedManager {
    start(Ok(()), KeepaliveConfig::default()).unwrap()
}

fn execute(action: ManagerAction) -> Statement {
    match action.next {
        NextStep::Execute(statement) => statement,
        _ => panic!("expected a statement"),
    }
}

#[test]
fn test_read_only_connection_is_replaced() {
    let manager = started();
    let timeout = manager.keepalive_timeout;
    let mut table = LockTable::new();

    let (state, action) = step(
        manager.state,
        ManagerEvent::Received(Some(acquire("work_key_1"))),
        timeout,
    );
    assert!(matches!(action.next, NextStep::CheckHealth));
    let (state, action) = step(state, health(Ok(true)), timeout);
    assert!(action.close_connection, "the read-only session is closed first");
    assert!(matches!(action.next, NextStep::AcquireConnection));
    let (state, action) = step(state, ManagerEvent::Connected(Ok(())), timeout);
    assert!(!action.close_connection);
    assert!(matches!(action.next, NextStep::CheckHealth));
    let (state, action) = step(state, health(Ok(false)), timeout);
    let statement = execute(action);
    assert_eq!(statement.sql(), ACQUIRE_SQL);
    let outcome = table.execute(&statement, 5, Uuid::from_u128(9));
    let (state, action) = step(state, ManagerEvent::Executed(outcome), timeout);
    match action.reply {
        Some(Reply::Acquire(Ok(worker))) => assert_eq!(worker, Uuid::from_u128(9)),
        _ => panic!("Lock should be acquired after replacing the read-only connection"),
    }
    assert!(matches!(state, ManagerState::Receiving { connected: true }));
}

#[test]
fn test_db_failure() {
    let mut sim = Sim::new(millis(100, 500));
    let lock = sim.acquire("work_key_1").unwrap();
    let mut keepalive = lock.keepalive_loop();
    let timeout = sim.timeout;

    // The connection died and another one cannot be had: the keep-alive is dropped.
    sim.now += 100_000;
    let command = match keepalive.step(KeepaliveEvent::Tick).next {
        KeepaliveStep::Send(command) => command,
        _ => panic!("a tick sends a keep-alive"),
    };
    let (state, _) = step(
        ManagerState::Receiving { connected: true },
        ManagerEvent::Received(Some(command)),
        timeout,
    );
    let (state, action) = step(state, health(Err("closed".to_string())), timeout);
    assert!(action.close_connection);
    let (state, action) = step(state, ManagerEvent::Connected(Err("down".to_string())), timeout);
    assert!(action.reply.is_none());
    assert!(matches!(state, ManagerState::Receiving { connected: false }));
    let result = sim
        .handle
        .keep_lock_alive(Call::NoReply("channel closed".to_string()));
    let action = keepalive.step(KeepaliveEvent::Replied(result));
    sim.report(action.report);
    assert!(
        lock.is_alive(&keepalive),
        "Lock should still be acquired even if the database connection died (it should have reconnected)"
    );
    assert_eq!(
        sim.counter
            .get(WorkLockOperation::KeepAlive, WorkLockFailure::CommandReply),
        1
    );

    // The next keep-alive finds a new connection first.
    sim.now += 100_000;
    let command = match keepalive.step(KeepaliveEvent::Tick).next {
        KeepaliveStep::Send(command) => command,
        _ => panic!("a tick sends a keep-alive"),
    };
    let (state, action) = step(state, ManagerEvent::Received(Some(command)), timeout);
    assert!(matches!(action.next, NextStep::AcquireConnection));
    let (state, _) = step(state, ManagerEvent::Connected(Ok(())), timeout);
    let (state, action) = step(state, health(Ok(false)), timeout);
    let outcome = sim
        .table
        .execute(&execute(action), sim.now, Uuid::from_u128(77));
    let (_, action) = step(state, ManagerEvent::Executed(outcome), timeout);
    match action.reply {
        Some(Reply::KeepAlive(result)) => {
            assert!(result.is_ok());
            keepalive.step(KeepaliveEvent::Replied(result));
        }
        _ => panic!("a keep-alive is answered"),
    }
    assert!(lock.is_alive(&keepalive));
    sim.now += 400_000;
    assert!(
        sim.acquire("work_key_1").is_err(),
        "New locks should not be acquired even if the database connection died (it should have reconnected)"
    );
}

#[test]
fn a_replacement_that_is_unhealthy_too_is_closed() {
    let timeout = Duration::from_secs(60);
    let state = ManagerState::CheckingNew {
        command: acquire("k"),
    };
    let (state, action) = step(state, health(Ok(true)), timeout);
    assert!(action.close_connection);
    assert!(action.reply.is_none() && action.report.is_none());
    assert!(matches!(action.next, NextStep::Receive));
    assert!(matches!(state, ManagerState::Receiving { connected: false }));
}

#[test]
fn an_acquire_whose_caller_is_gone_is_skipped() {
    let timeout = Duration::from_secs(60);
    let gone = ManagerEvent::Health {
        read_only: Ok(false),
        caller_gone: true,
    };
    let state = ManagerState::Checking {
        command: acquire("k"),
    };
    let (state, action) = step(state, gone, timeout);
    assert!(matches!(action.next, NextStep::Receive));
    assert!(matches!(state, ManagerState::Receiving { connected: true }));

    let release = WorkLockManagerCommand::ReleaseLock {
        work_key: "k".to_string(),
        worker_id: Uuid::nil(),
    };
    let gone = ManagerEvent::Health {
        read_only: Ok(false),
        caller_gone: true,
    };
    let (_, action) = step(ManagerState::Checking { command: release }, gone, timeout);
    assert_eq!(execute(action).sql(), RELEASE_SQL);
}

#[test]
fn the_loop_stops_when_all_handles_are_gone() {
    let timeout = Duration::from_secs(60);
    let (state, action) = step(started().state, ManagerEvent::Received(None), timeout);
    assert!(matches!(action.next, NextStep::Stop));
    assert!(matches!(state, ManagerState::Stopped));
    let (state, action) = step(
        state,
        ManagerEvent::Received(Some(acquire("k"))),
        timeout,
    );
    assert!(matches!(action.next, NextStep::KeepWaiting));
    assert!(matches!(state, ManagerState::Stopped));
}

#[test]
fn an_event_out_of_turn_changes_nothing() {
    let timeout = Duration::from_secs(60);
    let (state, action) = step(started().state, ManagerEvent::Connected(Ok(())), timeout);
    assert!(matches!(action.next, NextStep::KeepWaiting));
    assert!(matches!(state, ManagerState::Receiving { connected: true }));

    let state = ManagerState::Executing {
        command: acquire("k"),
    };
    let (state, action) = step(
        state,
        ManagerEvent::Executed(StatementOutcome::Keys(Ok(Vec::new()))),
        timeout,
    );
    assert!(matches!(action.next, NextStep::KeepWaiting));
    assert!(matches!(state, ManagerState::Executing { .. }));
}

#[test]
fn a_manager_without_a_connection_does_not_start() {
    match start(Err("pool closed".to_string()), KeepaliveConfig::default()) {
        Err(DatabaseError::Acquire(error)) => assert_eq!(error, "pool closed"),
        _ => panic!("starting takes a connection"),
    }
    let manager = started();
    assert_eq!(manager.handle.keepalive_interval.as_micros(), 10_000_000);
    assert_eq!(manager.keepalive_timeout.as_micros(), 60_000_000);
}

#[test]
fn health_is_a_writable_connection_that_answers() {
    assert!(connection_is_healthy(&Ok(false)));
    assert!(!connection_is_healthy(&Ok(true)));
    assert!(!connection_is_healthy(&Err("closed".to_string())));
    assert_eq!(
        HEALTH_SQL,
        "SELECT current_setting('transaction_read_only')::bool"
    );
}

#[test]
fn statements_that_fail_are_reported_with_their_text() {
    match acquire_result(Err("no route".to_string())) {
        Err(DatabaseError::Query { query, error }) => {
            assert_eq!(query, ACQUIRE_SQL);
            assert_eq!(error, "no route");
        }
        _ => panic!("the failure of the driver is an error"),
    }
    assert!(matches!(acquire_result(Ok(None)), Ok(None)));
    let worker = Uuid::from_u128(3);
    let key = "k".to_string();
    match release_result(&key, worker, Err("no route".to_string())) {
        Err(DatabaseError::Query { query, .. }) => assert_eq!(query, RELEASE_SQL),
        _ => panic!("the failure of the driver is an error"),
    }
    match keep_alive_result(&key, worker, Err("no route".to_string())) {
        Err(DatabaseError::Query { query, .. }) => assert_eq!(query, KEEP_ALIVE_SQL),
        _ => panic!("the failure of the driver is an error"),
    }
}

#[test]
fn statements_must_find_their_row() {
    let worker = Uuid::from_u128(0x550e8400_e29b_41d4_a716_446655440000);
    let key = "site-1".to_string();
    assert!(release_result(&key, worker, Ok(vec![key.clone()])).is_ok());
    assert!(keep_alive_result(&key, worker, Ok(vec![key.clone()])).is_ok());
    match release_result(&key, worker, Ok(Vec::new())) {
        Err(DatabaseError::FailedPrecondition(message)) => assert_eq!(
            message,
            "Tried to release nonexistent lock for work_key=site-1, worker_id=550e8400-e29b-41d4-a716-446655440000"
        ),
        _ => panic!("no row is an error"),
    }
    match keep_alive_result(&key, worker, Ok(Vec::new())) {
        Err(DatabaseError::FailedPrecondition(message)) => assert_eq!(
            message,
            "BUG: Tried to keep alive nonexistent lock for work_key=site-1, worker_id=550e8400-e29b-41d4-a716-446655440000 worker likely was not sending keep-alives frequently enough."
        ),
        _ => panic!("no row is an error"),
    }
}

#[test]
fn a_failed_statement_is_answered_and_a_failed_release_reported() {
    let timeout = Duration::from_secs(60);
    let state = ManagerState::Executing {
        command: acquire("k"),
    };
    let (_, action) = step(
        state,
        ManagerEvent::Executed(StatementOutcome::Worker(Err("down".to_string()))),
        timeout,
    );
    match action.reply {
        Some(Reply::Acquire(Err(AcquireLockError::Database(DatabaseError::Query {
            error, ..
        })))) => assert_eq!(error, "down"),
        _ => panic!("the caller learns of the failure"),
    }

    let state = ManagerState::Executing {
        command: WorkLockManagerCommand::ReleaseLock {
            work_key: "k".to_string(),
            worker_id: Uuid::nil(),
        },
    };
    let (_, action) = step(
        state,
        ManagerEvent::Executed(StatementOutcome::Keys(Err("down".to_string()))),
        timeout,
    );
    assert!(action.reply.is_none());
    match action.report {
        Some(WorkLockEvent::ReleaseFailed(event)) => {
            assert_eq!(event.failure, WorkLockFailure::Database);
            assert_eq!(event.error, "down");
            assert_eq!(event.work_key, "k");
        }
        _ => panic!("a failed release is reported"),
    }

    let state = ManagerState::Executing {
        command: WorkLockManagerCommand::KeepLockAlive {
            work_key: "k".to_string(),
            worker_id: Uuid::nil(),
        },
    };
    let (_, action) = step(
        state,
        ManagerEvent::Executed(StatementOutcome::Keys(Err("down".to_string()))),
        timeout,
    );
    assert!(matches!(
        action.reply,
        Some(Reply::KeepAlive(Err(KeepAliveError::Database(
            DatabaseError::Query { .. }
        ))))
    ));
}

#[test]
fn calls_that_get_no_reply_are_errors() {
    let handle = started().handle;
    match handle.try_acquire_lock("k".to_string(), Call::NotSent("full".to_string())) {
        Err(AcquireLockError::WorkLockManagerSend(error)) => assert_eq!(error, "full"),
        _ => panic!("a full queue is an error"),
    }
    match handle.try_acquire_lock("k".to_string(), Call::NoReply("closed".to_string())) {
        Err(AcquireLockError::WorkLockManagerReply(error)) => assert_eq!(error, "closed"),
        _ => panic!("no reply is an error"),
    }
    match handle.keep_lock_alive(Call::NotSent("full".to_string())) {
        Err(KeepAliveError::WorkLockManagerSend(error)) => assert_eq!(error, "full"),
        _ => panic!("a full queue is an error"),
    }
}

#[test]
fn a_dropped_lock_stops_its_loop_and_reports_a_full_queue() {
    let mut sim = Sim::new(KeepaliveConfig::default());
    let lock = sim.acquire("k").unwrap();
    let mut keepalive = lock.keepalive_loop();
    let action = keepalive.step(KeepaliveEvent::LockDropped);
    assert!(matches!(action.next, KeepaliveStep::Stop));
    assert!(action.report.is_none());
    assert_eq!(keepalive.state, KeepaliveState::Stopped);
    assert!(matches!(
        keepalive.step(KeepaliveEvent::Tick).next,
        KeepaliveStep::KeepWaiting
    ));
    assert!(lock.release_sent(Ok(())).is_none());
    match lock.release_sent(Err("no available capacity".to_string())) {
        Some(WorkLockEvent::ReleaseDispatchFailed(event)) => {
            assert_eq!(event.error, "no available capacity");
            assert_eq!(event.operation, WorkLockOperation::Release);
            assert_eq!(event.failure, WorkLockFailure::CommandDispatch);
            assert_eq!(event.work_key, "k");
            assert_eq!(event.worker_id, lock.worker_id);
        }
        _ => panic!("a release that was not sent is reported as such"),
    }
}

#[test]
fn an_unknown_worker_neither_renews_nor_removes_a_lock() {
    let mut table = LockTable::new();
    let key = "k".to_string();
    let holder = Uuid::from_u128(1);
    let stranger = Uuid::from_u128(2);
    assert_eq!(
        table.acquire(&key, Duration::from_secs(60), 10, holder),
        Ok(Some(holder))
    );
    assert!(table.keep_alive(&key, stranger, 20).is_empty());
    assert!(table.release(&key, stranger).is_empty());
    let row = table.get(&key).unwrap();
    assert_eq!((row.worker_id, row.last_keepalive), (holder, 10));
    assert_eq!(table.keep_alive(&key, holder, 30), vec![key.clone()]);
    assert_eq!(table.release(&key, holder), vec![key.clone()]);
    assert!(table.get(&key).is_none());
    assert!(table.get(&"other".to_string()).is_none());
}

#[test]
fn a_lock_is_held_through_the_last_microsecond_of_its_timeout() {
    let mut table = LockTable::new();
    let key = "k".to_string();
    let timeout = Duration::from_millis(1);
    assert!(table.acquire(&key, timeout, 0, Uuid::from_u128(1)).is_ok());
    assert_eq!(
        table.acquire(&key, timeout, 1_000, Uuid::from_u128(2)),
        Ok(None)
    );
    assert_eq!(
        table.acquire(&key, timeout, 1_001, Uuid::from_u128(2)),
        Ok(Some(Uuid::from_u128(2)))
    );
}

#[test]
fn a_timeout_that_is_no_interval_fails_every_acquire() {
    let key = "k".to_string();
    let longest = Duration {
        secs: (i64::MAX / 1_000_000) as u64,
        nanos: (i64::MAX % 1_000_000) as u32 * 1000,
    };
    let mut table = LockTable::new();
    assert_eq!(
        table.acquire(&key, longest, 5, Uuid::from_u128(1)),
        Ok(Some(Uuid::from_u128(1)))
    );
    assert_eq!(
        table.acquire(&key, longest, u64::MAX / 2, Uuid::from_u128(2)),
        Ok(None)
    );

    let mut table = LockTable::new();
    let too_long = Duration {
        secs: longest.secs,
        nanos: longest.nanos + 1000,
    };
    assert_eq!(
        table.acquire(&key, too_long, 5, Uuid::from_u128(1)),
        Err("error occurred while encoding a value: Encoding argument $2 failed: out of range integral type conversion attempted".to_string())
    );
    let too_fine = Duration { secs: 60, nanos: 1 };
    assert_eq!(
        table.acquire(&key, too_fine, 5, Uuid::from_u128(1)),
        Err("error occurred while encoding a value: Encoding argument $2 failed: PostgreSQL `INTERVAL` does not support nanoseconds precision".to_string())
    );
    assert!(table.get(&key).is_none());

    let mut sim = Sim::new(KeepaliveConfig {
        interval: Duration::from_secs(10),
        timeout: too_fine,
    });
    match sim.acquire("k") {
        Err(AcquireLockError::Database(DatabaseError::Query { query, .. })) => {
            assert_eq!(query, ACQUIRE_SQL)
        }
        _ => panic!("the statement cannot be run"),
    }
}

#[test]
fn commands_take_effect_in_the_order_taken() {
    let timeout = Duration::from_secs(60);
    let mut table = LockTable::new();
    let mut state = started().state;
    let mut replies = Vec::new();
    // The second command finds the connection gone and no other, and is dropped.
    let commands = vec![(acquire("a"), true), (acquire("b"), false), (acquire("a"), true)];
    for (worker, (command, healthy)) in commands.into_iter().enumerate() {
        let (next, action) = step(state, ManagerEvent::Received(Some(command)), timeout);
        state = next;
        if matches!(action.next, NextStep::AcquireConnection) {
            state = step(state, ManagerEvent::Connected(Ok(())), timeout).0;
        }
        if healthy {
            let (next, action) = step(state, health(Ok(false)), timeout);
            let fresh = Uuid::from_u128(worker as u128);
            let outcome = table.execute(&execute(action), 5, fresh);
            let (next, action) = step(next, ManagerEvent::Executed(outcome), timeout);
            state = next;
            replies.push(action.reply);
        } else {
            let (next, _) = step(state, health(Err("closed".to_string())), timeout);
            state = step(next, ManagerEvent::Connected(Err("down".to_string())), timeout).0;
        }
    }
    assert_eq!(replies.len(), 2);
    assert!(matches!(&replies[0], Some(Reply::Acquire(Ok(worker))) if *worker == Uuid::nil()));
    assert!(matches!(
        &replies[1],
        Some(Reply::Acquire(Err(AcquireLockError::WorkAlreadyLocked(_))))
    ));
    assert!(table.get(&"b".to_string()).is_none());
}

#[test]
fn spans_are_normal() {
    for millis in [0, 999, 1_000, 1_999, u64::MAX] {
        let span = Duration::from_millis(millis);
        assert!(span.nanos < 1_000_000_000);
        assert!(span.whole_micros());
        assert_eq!(span.as_micros(), millis as u128 * 1000);
    }
}

#[test]
fn a_lock_stays_exclusive_when_statements_fail() {
    let mut sim = Sim::new(millis(100, 500));
    let timeout = sim.timeout;
    let lock = sim.acquire("k").unwrap();
    let mut keepalive = lock.keepalive_loop();

    // The keep-alive is run, but the word of its success is lost.
    sim.now += 400_000;
    let command = match keepalive.step(KeepaliveEvent::Tick).next {
        KeepaliveStep::Send(command) => command,
        _ => panic!("a tick sends a keep-alive"),
    };
    let (state, _) = step(started().state, ManagerEvent::Received(Some(command)), timeout);
    let (state, action) = step(state, health(Ok(false)), timeout);
    sim.table
        .execute(&execute(action), sim.now, Uuid::from_u128(50));
    let lost = StatementOutcome::Keys(Err("connection reset".to_string()));
    let (state, action) = step(state, ManagerEvent::Executed(lost), timeout);
    match action.reply {
        Some(Reply::KeepAlive(result)) => {
            assert!(matches!(&result, Err(KeepAliveError::Database(_))));
            let action = keepalive.step(KeepaliveEvent::Replied(result));
            sim.report(action.report);
        }
        _ => panic!("a keep-alive is answered"),
    }
    assert!(lock.is_alive(&keepalive));
    assert_eq!(
        sim.counter
            .get(WorkLockOperation::KeepAlive, WorkLockFailure::Database),
        1
    );

    // So is a request of another worker, which is not run.
    let (state, _) = step(state, ManagerEvent::Received(Some(acquire("k"))), timeout);
    let (state, _) = step(state, health(Ok(false)), timeout);
    let lost = StatementOutcome::Worker(Err("connection reset".to_string()));
    let (_, action) = step(state, ManagerEvent::Executed(lost), timeout);
    assert!(matches!(
        action.reply,
        Some(Reply::Acquire(Err(AcquireLockError::Database(_))))
    ));

    sim.now += 500_000;
    assert!(matches!(
        sim.acquire("k"),
        Err(AcquireLockError::WorkAlreadyLocked(_))
    ));
    let row = sim.table.get(&"k".to_string()).unwrap();
    assert_eq!(row.worker_id, lock.worker_id);
}

#[test]
fn an_expired_lock_dies_wherever_its_loop_is() {
    let mut sim = Sim::new(millis(500, 100));
    let old_lock = sim.acquire("k").unwrap();
    let mut old_loop = old_lock.keepalive_loop();
    // The first tick comes at once and is answered.
    sim.tick(&mut old_loop);
    assert!(old_lock.is_alive(&old_loop));

    // Another keep-alive is under way when the lock goes to the next worker.
    sim.now += 500_000;
    let command = match old_loop.step(KeepaliveEvent::Tick).next {
        KeepaliveStep::Send(command) => command,
        _ => panic!("a tick sends a keep-alive"),
    };
    let new_lock = sim.acquire("k").unwrap();
    let mut new_loop = new_lock.keepalive_loop();
    sim.tick(&mut new_loop);
    let result = match sim.run(command) {
        Some(Reply::KeepAlive(result)) => result,
        _ => panic!("a keep-alive is always answered"),
    };
    let action = old_loop.step(KeepaliveEvent::Replied(result));
    sim.report(action.report);
    let action = new_loop.step(KeepaliveEvent::Tick);
    assert!(matches!(action.next, KeepaliveStep::Send(_)));
    let failed = sim
        .handle
        .keep_lock_alive(Call::NotSent("full".to_string()));
    let action = new_loop.step(KeepaliveEvent::Replied(failed));
    sim.report(action.report);

    assert!(!old_lock.is_alive(&old_loop));
    assert!(new_lock.is_alive(&new_loop));
    assert_eq!(
        sim.counter
            .get(WorkLockOperation::KeepAlive, WorkLockFailure::LockLost),
        1
    );
    assert_eq!(
        sim.counter
            .get(WorkLockOperation::KeepAlive, WorkLockFailure::CommandDispatch),
        1
    );
}
