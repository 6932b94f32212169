use minidb::db::Database;
use minidb::errors::DbError;
use minidb::executor::{run_reducer, ReducerCall};
use minidb::reducers::{create_event, create_message, increment_counter, init, on_module_update};
use minidb::rows::Timestamp;

fn ts(micros: i64) -> Timestamp {
    Timestamp { micros }
}

#[test]
fn visits_counter_scenario() {
    let mut db = Database::new();
    let r = increment_counter(&mut db, ts(100), String::from("visits"), 5);
    assert!(matches!(r, Ok(())));
    {
        let c = db.counters.find(&String::from("visits")).unwrap();
        assert_eq!(c.name, "visits");
        assert_eq!(c.value, 5);
        assert_eq!(c.last_updated.micros, 100);
    }
    let r = increment_counter(&mut db, ts(200), String::from("visits"), -2);
    assert!(matches!(r, Ok(())));
    let c = db.counters.find(&String::from("visits")).unwrap();
    assert_eq!(c.name, "visits");
    assert_eq!(c.value, 3);
    assert_eq!(c.last_updated.micros, 200);
}

#[test]
fn increments_sum_across_interleaved_work() {
    let mut db = Database::new();
    assert!(increment_counter(&mut db, ts(1), String::from("visits"), 5).is_ok());
    assert!(increment_counter(&mut db, ts(2), String::from("errors"), 7).is_ok());
    assert!(create_message(
        &mut db,
        ts(3),
        String::from("alice"),
        String::from("hi"),
        String::from("general"),
    )
    .is_ok());
    assert!(increment_counter(&mut db, ts(4), String::from("visits"), -2).is_ok());
    assert!(increment_counter(&mut db, ts(5), String::from("errors"), 1).is_ok());
    assert_eq!(db.counters.find(&String::from("visits")).unwrap().value, 3);
    assert_eq!(db.counters.find(&String::from("errors")).unwrap().value, 8);
}

#[test]
fn repeated_unit_increments_count_exactly() {
    let mut db = Database::new();
    for i in 0..10 {
        let r = increment_counter(&mut db, ts(i), String::from("n"), 1);
        assert!(matches!(r, Ok(())));
    }
    assert_eq!(db.counters.find(&String::from("n")).unwrap().value, 10);
}

#[test]
fn message_and_event_ids_are_independent() {
    let mut db = Database::new();
    assert!(create_message(
        &mut db,
        ts(10),
        String::from("alice"),
        String::from("first"),
        String::from("general"),
    )
    .is_ok());
    assert!(create_event(
        &mut db,
        ts(11),
        String::from("login"),
        String::from("web"),
        String::from("{}"),
    )
    .is_ok());
    assert!(create_message(
        &mut db,
        ts(12),
        String::from("bob"),
        String::from("second"),
        String::from("general"),
    )
    .is_ok());
    let messages = db.messages.scan();
    assert_eq!(messages.len(), 2);
    assert_eq!(messages[0].id, 1);
    assert_eq!(messages[1].id, 2);
    let events = db.events.scan();
    assert_eq!(events.len(), 1);
    assert_eq!(events[0].id, 1);
}

#[test]
fn inserted_message_round_trips_except_assigned_key() {
    let mut db = Database::new();
    let r = create_message(
        &mut db,
        ts(42),
        String::from("alice"),
        String::from("hello there"),
        String::from("random"),
    );
    assert!(matches!(r, Ok(())));
    let rows = db.messages.scan();
    assert_eq!(rows.len(), 1);
    let row = &rows[0];
    assert_eq!(row.id, 1);
    assert_eq!(row.sender, "alice");
    assert_eq!(row.content, "hello there");
    assert_eq!(row.channel, "random");
    assert_eq!(row.timestamp.micros, 42);
}

#[test]
fn overflowing_increment_aborts_and_leaves_row_readable() {
    let mut db = Database::new();
    assert!(increment_counter(&mut db, ts(1), String::from("c"), i64::MAX).is_ok());
    let r = increment_counter(&mut db, ts(2), String::from("c"), 1);
    assert!(matches!(r, Err(DbError::CounterOverflow)));
    let c = db.counters.find(&String::from("c")).unwrap();
    assert_eq!(c.value, i64::MAX);
    assert_eq!(c.last_updated.micros, 1);
}

#[test]
fn underflowing_increment_aborts() {
    let mut db = Database::new();
    assert!(increment_counter(&mut db, ts(1), String::from("d"), i64::MIN).is_ok());
    let r = increment_counter(&mut db, ts(2), String::from("d"), -1);
    assert!(matches!(r, Err(DbError::CounterOverflow)));
    assert_eq!(db.counters.find(&String::from("d")).unwrap().value, i64::MIN);
}

#[test]
fn executor_dispatches_and_commits() {
    let mut db = Database::new();
    let r = run_reducer(
        &mut db,
        ts(7),
        ReducerCall::IncrementCounter { name: String::from("visits"), amount: 4 },
    );
    assert!(matches!(r, Ok(())));
    let r = run_reducer(
        &mut db,
        ts(8),
        ReducerCall::CreateMessage {
            sender: String::from("bob"),
            content: String::from("hi"),
            channel: String::from("general"),
        },
    );
    assert!(matches!(r, Ok(())));
    let r = run_reducer(
        &mut db,
        ts(9),
        ReducerCall::CreateEvent {
            event_type: String::from("click"),
            source: String::from("ui"),
            data: String::from("{\"x\":1}"),
        },
    );
    assert!(matches!(r, Ok(())));
    assert_eq!(db.counters.find(&String::from("visits")).unwrap().value, 4);
    assert_eq!(db.messages.scan().len(), 1);
    assert_eq!(db.events.scan().len(), 1);
}

#[test]
fn failed_invocation_leaves_no_trace() {
    let mut db = Database::new();
    assert!(increment_counter(&mut db, ts(1), String::from("c"), i64::MAX).is_ok());
    assert!(create_message(
        &mut db,
        ts(2),
        String::from("a"),
        String::from("m"),
        String::from("ch"),
    )
    .is_ok());
    let r = run_reducer(
        &mut db,
        ts(3),
        ReducerCall::IncrementCounter { name: String::from("c"), amount: 1 },
    );
    assert!(matches!(r, Err(DbError::CounterOverflow)));
    assert_eq!(db.counters.find(&String::from("c")).unwrap().value, i64::MAX);
    assert_eq!(db.counters.find(&String::from("c")).unwrap().last_updated.micros, 1);
    assert_eq!(db.messages.scan().len(), 1);
    assert_eq!(db.events.scan().len(), 0);
}

#[test]
fn lifecycle_hooks_mutate_nothing() {
    let mut db = Database::new();
    assert!(increment_counter(&mut db, ts(1), String::from("seeded"), 2).is_ok());
    init(&mut db);
    on_module_update(&mut db);
    let r = run_reducer(&mut db, ts(2), ReducerCall::Init);
    assert!(matches!(r, Ok(())));
    let r = run_reducer(&mut db, ts(3), ReducerCall::OnModuleUpdate);
    assert!(matches!(r, Ok(())));
    assert_eq!(db.counters.find(&String::from("seeded")).unwrap().value, 2);
    assert_eq!(db.messages.scan().len(), 0);
    assert_eq!(db.events.scan().len(), 0);
}

#[test]
fn create_message_aborts_when_id_space_is_exhausted() {
    let mut db = Database::new();
    let seed = minidb::rows::Message {
        id: u64::MAX - 1,
        sender: String::from("a"),
        content: String::from("late"),
        channel: String::from("ch"),
        timestamp: ts(1),
    };
    assert!(matches!(db.messages.insert(seed), Ok(v) if v == u64::MAX - 1));
    let r = create_message(
        &mut db,
        ts(2),
        String::from("b"),
        String::from("never lands"),
        String::from("ch"),
    );
    assert!(matches!(r, Err(DbError::IdSpaceExhausted)));
    assert_eq!(db.messages.scan().len(), 1);
}

#[test]
fn first_increment_creates_row_with_amount() {
    let mut db = Database::new();
    assert!(increment_counter(&mut db, ts(5), String::from("fresh"), -9).is_ok());
    let c = db.counters.find(&String::from("fresh")).unwrap();
    assert_eq!(c.value, -9);
    assert_eq!(c.last_updated.micros, 5);
    assert!(db.counters.find(&String::from("other")).is_none());
}
