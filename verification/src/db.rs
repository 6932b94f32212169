use vstd::prelude::*;

use crate::counter_table::CounterTable;
use crate::event_table::{event_table_wf, EventTable, EventTableView};
use crate::message_table::{message_table_wf, MessageTable, MessageTableView};
use crate::rows::{CounterView, EventView, MessageView};

verus! {

/// The whole table store: one counters table, one messages table, one
/// events table. Reducers own all mutation; outside a reducer the
/// tables are meant to be reached read-only, for point lookup and scan.
pub struct Database {
    pub counters: CounterTable,
    pub messages: MessageTable,
    pub events: EventTable,
}

/// Mathematical image of the whole store.
#[verifier::ext_equal]
pub ghost struct DbView {
    pub counters: Map<Seq<char>, CounterView>,
    pub messages: MessageTableView,
    pub events: EventTableView,
}

/// The table-level invariants, stated of the image alone: both
/// auto-increment tables keep their identifiers positive, distinct and
/// below the next one to assign.
pub open spec fn db_view_wf(v: DbView) -> bool {
    message_table_wf(v.messages) && event_table_wf(v.events)
}

impl View for Database {
    type V = DbView;

    open spec fn view(&self) -> DbView {
        DbView { counters: self.counters@, messages: self.messages@, events: self.events@ }
    }
}

impl Database {
    /// Well-formed: each table keeps its primary keys unique, and the
    /// auto-increment tables keep their identifier state consistent.
    pub open spec fn wf(&self) -> bool {
        self.counters.wf() && db_view_wf(self@)
    }

    /// An empty store: no rows anywhere, both identifier sequences at 1.
    pub fn new() -> (db: Database)
        ensures
            db.wf(),
            db@.counters == Map::<Seq<char>, CounterView>::empty(),
            db@.messages.rows == Seq::<MessageView>::empty(),
            db@.messages.next_id == 1,
            db@.events.rows == Seq::<EventView>::empty(),
            db@.events.next_id == 1,
    {
        Database {
            counters: CounterTable::new(),
            messages: MessageTable::new(),
            events: EventTable::new(),
        }
    }
}

} // verus!
