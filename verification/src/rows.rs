use vstd::prelude::*;

verus! {

/// A point in time, in microseconds since the Unix epoch.
///
/// The engine never reads a clock itself: the host binds one `Timestamp`
/// when it opens a reducer invocation, and every row written during that
/// invocation carries this one value.
#[derive(Clone, Copy, PartialEq, Eq, Structural, Debug)]
pub struct Timestamp {
    pub micros: i64,
}

/// A named counter row. `name` is the primary key; at most one live row
/// exists per name.
pub struct Counter {
    /// Primary key: the counter's name.
    pub name: String,
    /// The current counter value.
    pub value: i64,
    /// When the counter was last created or updated.
    pub last_updated: Timestamp,
}

/// Mathematical image of a [`Counter`] row.
#[verifier::ext_equal]
pub ghost struct CounterView {
    pub name: Seq<char>,
    pub value: i64,
    pub last_updated: Timestamp,
}

impl View for Counter {
    type V = CounterView;

    open spec fn view(&self) -> CounterView {
        CounterView { name: self.name@, value: self.value, last_updated: self.last_updated }
    }
}

/// A chat message row, append-only. `id` is the primary key and is
/// assigned by the table itself (auto-increment); callers pass 0 as a
/// placeholder.
pub struct Message {
    /// Primary key, host-assigned: strictly positive, never reused.
    pub id: u64,
    /// Who sent the message.
    pub sender: String,
    /// The message body.
    pub content: String,
    /// The channel the message was posted to.
    pub channel: String,
    /// When the message was inserted.
    pub timestamp: Timestamp,
}

/// Mathematical image of a [`Message`] row.
#[verifier::ext_equal]
pub ghost struct MessageView {
    pub id: u64,
    pub sender: Seq<char>,
    pub content: Seq<char>,
    pub channel: Seq<char>,
    pub timestamp: Timestamp,
}

impl View for Message {
    type V = MessageView;

    open spec fn view(&self) -> MessageView {
        MessageView {
            id: self.id,
            sender: self.sender@,
            content: self.content@,
            channel: self.channel@,
            timestamp: self.timestamp,
        }
    }
}

/// An event-log row, append-only, same shape as [`Message`].
pub struct Event {
    /// Primary key, host-assigned: strictly positive, never reused.
    pub id: u64,
    /// What kind of event this is.
    pub event_type: String,
    /// Where the event came from.
    pub source: String,
    /// Opaque payload, e.g. a serialized structured value.
    pub data: String,
    /// When the event was inserted.
    pub timestamp: Timestamp,
}

/// Mathematical image of an [`Event`] row.
#[verifier::ext_equal]
pub ghost struct EventView {
    pub id: u64,
    pub event_type: Seq<char>,
    pub source: Seq<char>,
    pub data: Seq<char>,
    pub timestamp: Timestamp,
}

impl View for Event {
    type V = EventView;

    open spec fn view(&self) -> EventView {
        EventView {
            id: self.id,
            event_type: self.event_type@,
            source: self.source@,
            data: self.data@,
            timestamp: self.timestamp,
        }
    }
}

} // verus!
