use minidb::counter_table::CounterTable;
use minidb::errors::DbError;
use minidb::event_table::EventTable;
use minidb::message_table::MessageTable;
use minidb::rows::{Counter, Event, Message, Timestamp};
use minidb::schema::{counter_schema, event_schema, message_schema, ColumnType};

fn ts(micros: i64) -> Timestamp {
    Timestamp { micros }
}

fn message(id: u64, sender: &str, content: &str, channel: &str, at: i64) -> Message {
    Message {
        id,
        sender: String::from(sender),
        content: String::from(content),
        channel: String::from(channel),
        timestamp: ts(at),
    }
}

fn event(id: u64, event_type: &str, source: &str, data: &str, at: i64) -> Event {
    Event {
        id,
        event_type: String::from(event_type),
        source: String::from(source),
        data: String::from(data),
        timestamp: ts(at),
    }
}

#[test]
fn counter_insert_find_delete() {
    let mut t = CounterTable::new();
    assert!(t.find(&String::from("a")).is_none());
    let r = t.insert(Counter { name: String::from("a"), value: 1, last_updated: ts(1) });
    assert!(matches!(r, Ok(())));
    let c = t.find(&String::from("a")).unwrap();
    assert_eq!(c.value, 1);
    let r = t.delete(&String::from("a"));
    assert!(matches!(r, Ok(())));
    assert!(t.find(&String::from("a")).is_none());
}

#[test]
fn counter_duplicate_name_is_refused() {
    let mut t = CounterTable::new();
    assert!(t.insert(Counter { name: String::from("a"), value: 1, last_updated: ts(1) }).is_ok());
    let r = t.insert(Counter { name: String::from("a"), value: 2, last_updated: ts(2) });
    assert!(matches!(r, Err(DbError::UniqueConstraintViolation)));
    assert_eq!(t.find(&String::from("a")).unwrap().value, 1);
}

#[test]
fn counter_delete_absent_is_not_found() {
    let mut t = CounterTable::new();
    let r = t.delete(&String::from("missing"));
    assert!(matches!(r, Err(DbError::NotFound)));
}

#[test]
fn counter_scan_returns_every_live_row() {
    let mut t = CounterTable::new();
    assert!(t.insert(Counter { name: String::from("a"), value: 1, last_updated: ts(1) }).is_ok());
    assert!(t.insert(Counter { name: String::from("b"), value: 2, last_updated: ts(2) }).is_ok());
    let mut names: Vec<String> = t.scan().iter().map(|c| c.name.clone()).collect();
    names.sort();
    assert_eq!(names, vec![String::from("a"), String::from("b")]);
}

#[test]
fn message_auto_increment_assigns_from_one() {
    let mut t = MessageTable::new();
    let r = t.insert(message(0, "alice", "one", "ch", 1));
    assert!(matches!(r, Ok(1)));
    let r = t.insert(message(0, "bob", "two", "ch", 2));
    assert!(matches!(r, Ok(2)));
    let rows = t.scan();
    assert_eq!(rows.len(), 2);
    assert_eq!(rows[0].id, 1);
    assert_eq!(rows[1].id, 2);
}

#[test]
fn message_id_is_not_reused_after_delete() {
    let mut t = MessageTable::new();
    assert!(matches!(t.insert(message(0, "a", "one", "ch", 1)), Ok(1)));
    assert!(matches!(t.insert(message(0, "a", "two", "ch", 2)), Ok(2)));
    let r = t.delete(2);
    assert!(matches!(r, Ok(())));
    assert!(t.find(2).is_none());
    let r = t.insert(message(0, "a", "three", "ch", 3));
    assert!(matches!(r, Ok(3)));
    assert!(t.find(3).is_some());
}

#[test]
fn message_explicit_id_is_kept_and_advances_sequence() {
    let mut t = MessageTable::new();
    let r = t.insert(message(10, "a", "explicit", "ch", 1));
    assert!(matches!(r, Ok(10)));
    let r = t.insert(message(0, "a", "auto", "ch", 2));
    assert!(matches!(r, Ok(11)));
}

#[test]
fn message_explicit_duplicate_id_is_refused() {
    let mut t = MessageTable::new();
    assert!(matches!(t.insert(message(5, "a", "one", "ch", 1)), Ok(5)));
    let r = t.insert(message(5, "b", "two", "ch", 2));
    assert!(matches!(r, Err(DbError::UniqueConstraintViolation)));
    assert_eq!(t.scan().len(), 1);
}

#[test]
fn message_delete_absent_is_not_found() {
    let mut t = MessageTable::new();
    let r = t.delete(7);
    assert!(matches!(r, Err(DbError::NotFound)));
}

#[test]
fn message_id_space_can_be_exhausted() {
    let mut t = MessageTable::new();
    let r = t.insert(message(u64::MAX, "a", "too far", "ch", 1));
    assert!(matches!(r, Err(DbError::IdSpaceExhausted)));
    let r = t.insert(message(u64::MAX - 1, "a", "almost", "ch", 2));
    assert!(matches!(r, Ok(v) if v == u64::MAX - 1));
    let r = t.insert(message(0, "a", "auto", "ch", 3));
    assert!(matches!(r, Err(DbError::IdSpaceExhausted)));
    assert_eq!(t.scan().len(), 1);
}

#[test]
fn message_find_by_id() {
    let mut t = MessageTable::new();
    assert!(matches!(t.insert(message(0, "alice", "one", "general", 1)), Ok(1)));
    assert!(matches!(t.insert(message(0, "bob", "two", "random", 2)), Ok(2)));
    let m = t.find(2).unwrap();
    assert_eq!(m.sender, "bob");
    assert_eq!(m.content, "two");
    assert_eq!(m.channel, "random");
    assert!(t.find(99).is_none());
}

#[test]
fn event_table_mirrors_message_behaviour() {
    let mut t = EventTable::new();
    assert!(matches!(t.insert(event(0, "login", "web", "{}", 1)), Ok(1)));
    assert!(matches!(t.insert(event(0, "click", "ui", "{}", 2)), Ok(2)));
    assert!(matches!(t.delete(1), Ok(())));
    assert!(matches!(t.insert(event(0, "logout", "web", "{}", 3)), Ok(3)));
    assert!(t.find(1).is_none());
    assert_eq!(t.find(3).unwrap().event_type, "logout");
    let r = t.insert(event(3, "dup", "x", "{}", 4));
    assert!(matches!(r, Err(DbError::UniqueConstraintViolation)));
    let r = t.delete(42);
    assert!(matches!(r, Err(DbError::NotFound)));
}

#[test]
fn schemas_declare_shapes_and_keys() {
    let c = counter_schema();
    assert_eq!(c.table_name, "counter");
    assert_eq!(c.primary_key, 0);
    assert!(!c.auto_increment);
    let names: Vec<&str> = c.columns.iter().map(|col| col.name).collect();
    assert_eq!(names, vec!["name", "value", "last_updated"]);
    assert_eq!(c.columns[0].column_type, ColumnType::Text);
    assert_eq!(c.columns[1].column_type, ColumnType::Int64);
    assert_eq!(c.columns[2].column_type, ColumnType::Time);

    let m = message_schema();
    assert_eq!(m.table_name, "message");
    assert_eq!(m.primary_key, 0);
    assert!(m.auto_increment);
    assert_eq!(m.columns[0].column_type, ColumnType::UInt64);
    let names: Vec<&str> = m.columns.iter().map(|col| col.name).collect();
    assert_eq!(names, vec!["id", "sender", "content", "channel", "timestamp"]);

    let e = event_schema();
    assert_eq!(e.table_name, "event");
    assert_eq!(e.primary_key, 0);
    assert!(e.auto_increment);
    let names: Vec<&str> = e.columns.iter().map(|col| col.name).collect();
    assert_eq!(names, vec!["id", "event_type", "source", "data", "timestamp"]);
}
