use vstd::prelude::*;

use crate::db::{Database, DbView};
use crate::errors::DbError;
use crate::rows::{Counter, CounterView, Event, EventView, Message, MessageView, Timestamp};
use crate::message_table::MessageTableView;
use crate::event_table::EventTableView;

verus! {

/// The update `amount` would leave the signed 64-bit range when added to
/// the counter `name` currently holds. A counter not yet created cannot
/// overflow: its first value is `amount` itself.
pub open spec fn counter_sum_overflows(s: DbView, name: Seq<char>, amount: i64) -> bool {
    s.counters.contains_key(name) && !(i64::MIN <= s.counters[name].value + amount <= i64::MAX)
}

/// The value the counter `name` holds after an increment by `amount`
/// that does not overflow.
pub open spec fn incremented_value(s: DbView, name: Seq<char>, amount: i64) -> i64 {
    if s.counters.contains_key(name) {
        (s.counters[name].value + amount) as i64
    } else {
        amount
    }
}

/// The store after `increment_counter(name, amount)` runs at `now`: the
/// one counter row is upserted, every other table untouched; on overflow
/// the store is unchanged.
pub open spec fn increment_counter_step(
    s: DbView,
    now: Timestamp,
    name: Seq<char>,
    amount: i64,
) -> DbView {
    if counter_sum_overflows(s, name, amount) {
        s
    } else {
        DbView {
            counters: s.counters.insert(
                name,
                CounterView { name, value: incremented_value(s, name, amount), last_updated: now },
            ),
            ..s
        }
    }
}

/// Whether `increment_counter(name, amount)` commits or aborts on `s`.
pub open spec fn increment_counter_result(s: DbView, name: Seq<char>, amount: i64) -> Result<
    (),
    DbError,
> {
    if counter_sum_overflows(s, name, amount) {
        Err(DbError::CounterOverflow)
    } else {
        Ok(())
    }
}

/// Increment the counter `name` by `amount` (which may be negative),
/// creating the row with `value == amount` on its first increment.
///
/// The whole invocation is atomic: on overflow it aborts with
/// `CounterOverflow` and the store is exactly as it was. The row keeps
/// its primary key across the update and takes `now` as its new
/// `last_updated` timestamp.
pub fn increment_counter(db: &mut Database, now: Timestamp, name: String, amount: i64) -> (r:
    Result<(), DbError>)
    requires
        old(db).wf(),
    ensures
        final(db).wf(),
        r == increment_counter_result(old(db)@, name@, amount),
        final(db)@ == increment_counter_step(old(db)@, now, name@, amount),
{
    let ghost pre = db@;
    let existing: Option<i64> = match db.counters.find(&name) {
        Some(c) => Some(c.value),
        None => None,
    };
    match existing {
        Some(value) => {
            match value.checked_add(amount) {
                Some(new_value) => {
                    let _ = db.counters.delete(&name);
                    let _ = db.counters.insert(
                        Counter { name, value: new_value, last_updated: now },
                    );
                    proof {
                        assert(db@.counters =~= pre.counters.insert(
                            name@,
                            CounterView {
                                name: name@,
                                value: incremented_value(pre, name@, amount),
                                last_updated: now,
                            },
                        ));
                        assert(db@ =~= increment_counter_step(pre, now, name@, amount));
                    }
                    Ok(())
                },
                None => Err(DbError::CounterOverflow),
            }
        },
        None => {
            let _ = db.counters.insert(Counter { name, value: amount, last_updated: now });
            proof {
                assert(db@ =~= increment_counter_step(pre, now, name@, amount));
            }
            Ok(())
        },
    }
}

/// The store after `create_message` runs at `now`: one message row is
/// appended carrying the next identifier and the bound timestamp; when
/// the identifier space is exhausted the store is unchanged.
pub open spec fn create_message_step(
    s: DbView,
    now: Timestamp,
    sender: Seq<char>,
    content: Seq<char>,
    channel: Seq<char>,
) -> DbView {
    if s.messages.next_id == u64::MAX {
        s
    } else {
        DbView {
            messages: MessageTableView {
                rows: s.messages.rows.push(
                    MessageView {
                        id: s.messages.next_id,
                        sender,
                        content,
                        channel,
                        timestamp: now,
                    },
                ),
                next_id: (s.messages.next_id + 1) as u64,
            },
            ..s
        }
    }
}

/// Whether `create_message` commits or aborts on `s`.
pub open spec fn create_message_result(s: DbView) -> Result<(), DbError> {
    if s.messages.next_id == u64::MAX {
        Err(DbError::IdSpaceExhausted)
    } else {
        Ok(())
    }
}

/// Append a message to the messages table: pure insert, no
/// read-before-write. The table assigns the primary key; the row takes
/// `now` as its timestamp.
pub fn create_message(
    db: &mut Database,
    now: Timestamp,
    sender: String,
    content: String,
    channel: String,
) -> (r: Result<(), DbError>)
    requires
        old(db).wf(),
    ensures
        final(db).wf(),
        r == create_message_result(old(db)@),
        final(db)@ == create_message_step(old(db)@, now, sender@, content@, channel@),
{
    let ghost pre = db@;
    let row = Message { id: 0, sender, content, channel, timestamp: now };
    match db.messages.insert(row) {
        Ok(_) => {
            proof {
                assert(db@ =~= create_message_step(pre, now, row.sender@, row.content@,
                    row.channel@));
            }
            Ok(())
        },
        Err(e) => Err(e),
    }
}

/// The store after `create_event` runs at `now`: one event row is
/// appended carrying the next identifier and the bound timestamp; when
/// the identifier space is exhausted the store is unchanged.
pub open spec fn create_event_step(
    s: DbView,
    now: Timestamp,
    event_type: Seq<char>,
    source: Seq<char>,
    data: Seq<char>,
) -> DbView {
    if s.events.next_id == u64::MAX {
        s
    } else {
        DbView {
            events: EventTableView {
                rows: s.events.rows.push(
                    EventView { id: s.events.next_id, event_type, source, data, timestamp: now },
                ),
                next_id: (s.events.next_id + 1) as u64,
            },
            ..s
        }
    }
}

/// Whether `create_event` commits or aborts on `s`.
pub open spec fn create_event_result(s: DbView) -> Result<(), DbError> {
    if s.events.next_id == u64::MAX {
        Err(DbError::IdSpaceExhausted)
    } else {
        Ok(())
    }
}

/// Append an event-log entry to the events table: pure insert, no
/// read-before-write. The table assigns the primary key; the row takes
/// `now` as its timestamp.
pub fn create_event(
    db: &mut Database,
    now: Timestamp,
    event_type: String,
    source: String,
    data: String,
) -> (r: Result<(), DbError>)
    requires
        old(db).wf(),
    ensures
        final(db).wf(),
        r == create_event_result(old(db)@),
        final(db)@ == create_event_step(old(db)@, now, event_type@, source@, data@),
{
    let ghost pre = db@;
    let row = Event { id: 0, event_type, source, data, timestamp: now };
    match db.events.insert(row) {
        Ok(_) => {
            proof {
                assert(db@ =~= create_event_step(pre, now, row.event_type@, row.source@,
                    row.data@));
            }
            Ok(())
        },
        Err(e) => Err(e),
    }
}

/// Lifecycle hook, run once when the module is first published. An
/// empty extension point: it mutates nothing.
pub fn init(db: &mut Database)
    ensures
        *final(db) == *old(db),
{
}

/// Lifecycle hook, run once when the module is updated to a new
/// version. An empty extension point: it mutates nothing.
pub fn on_module_update(db: &mut Database)
    ensures
        *final(db) == *old(db),
{
}

} // verus!
