use vstd::prelude::*;

use crate::errors::DbError;
use crate::rows::{Event, EventView};

verus! {

/// Mathematical image of the events table: the rows in storage order,
/// and the next identifier the table would assign. The sequence is the
/// table's own, independent of every other table's.
#[verifier::ext_equal]
pub ghost struct EventTableView {
    pub rows: Seq<EventView>,
    pub next_id: u64,
}

/// Some row carries the identifier `id`.
pub open spec fn event_has_id(rows: Seq<EventView>, id: u64) -> bool {
    exists|i: int| 0 <= i < rows.len() && rows[i].id == id
}

/// The storage index of the row carrying `id` (the rows' identifiers are
/// distinct in a well-formed table, so it is unique).
pub open spec fn event_idx_of(rows: Seq<EventView>, id: u64) -> int {
    choose|i: int| 0 <= i < rows.len() && rows[i].id == id
}

/// Well-formed: identifiers are strictly positive, distinct, and all
/// below the next one to assign, so a fresh identifier never collides
/// and is never reused, even after a delete.
pub open spec fn event_table_wf(t: EventTableView) -> bool {
    &&& 1 <= t.next_id
    &&& forall|i: int| 0 <= i < t.rows.len() ==> 1 <= #[trigger] t.rows[i].id < t.next_id
    &&& forall|i: int, j: int| 0 <= i < j < t.rows.len() ==> t.rows[i].id != t.rows[j].id
}

/// The events table: append-only rows keyed by an auto-increment
/// primary key that the table itself assigns, starting at 1.
pub struct EventTable {
    rows: Vec<Event>,
    next_id: u64,
}

impl View for EventTable {
    type V = EventTableView;

    closed spec fn view(&self) -> EventTableView {
        EventTableView { rows: self.rows@.map_values(|e: Event| e@), next_id: self.next_id }
    }
}

impl EventTable {
    /// Well-formed: see [`event_table_wf`].
    pub open spec fn wf(&self) -> bool {
        event_table_wf(self@)
    }

    /// An empty table; the first assigned identifier will be 1.
    pub fn new() -> (t: EventTable)
        ensures
            t.wf(),
            t@.rows =~= Seq::<EventView>::empty(),
            t@.next_id == 1,
    {
        let t = EventTable { rows: Vec::new(), next_id: 1 };
        proof {
            assert(t@.rows =~= Seq::<EventView>::empty());
        }
        t
    }

    /// The storage index of the row carrying `id`, if one is live.
    fn index_of(&self, id: u64) -> (r: Option<usize>)
        requires
            self.wf(),
        ensures
            match r {
                Some(i) => i < self@.rows.len() && self@.rows[i as int].id == id,
                None => !event_has_id(self@.rows, id),
            },
    {
        let n = self.rows.len();
        let mut i: usize = 0;
        while i < n
            invariant
                n == self@.rows.len(),
                0 <= i <= n,
                forall|j: int| 0 <= j < i ==> self@.rows[j].id != id,
            decreases n - i,
        {
            if self.rows[i].id == id {
                return Some(i);
            }
            i += 1;
        }
        None
    }

    /// Insert a row.
    ///
    /// A placeholder key of 0 asks the table to assign the next unused
    /// identifier; the inserted row carries it, and it is returned. An
    /// explicit key is kept as passed, and is refused when it is already
    /// live. The next identifier to assign only ever grows, so an
    /// identifier is never reused.
    pub fn insert(&mut self, row: Event) -> (r: Result<u64, DbError>)
        requires
            old(self).wf(),
        ensures
            final(self).wf(),
            row.id == 0 && old(self)@.next_id < u64::MAX ==> r == Ok::<u64, DbError>(
                old(self)@.next_id,
            ) && final(self)@.rows == old(self)@.rows.push(
                EventView { id: old(self)@.next_id, ..row@ },
            ) && final(self)@.next_id == old(self)@.next_id + 1,
            row.id == 0 && old(self)@.next_id == u64::MAX ==> r == Err::<u64, DbError>(
                DbError::IdSpaceExhausted,
            ) && final(self)@ == old(self)@,
            row.id != 0 && event_has_id(old(self)@.rows, row.id) ==> r == Err::<u64, DbError>(
                DbError::UniqueConstraintViolation,
            ) && final(self)@ == old(self)@,
            row.id != 0 && !event_has_id(old(self)@.rows, row.id) && row.id == u64::MAX ==> r
                == Err::<u64, DbError>(DbError::IdSpaceExhausted) && final(self)@ == old(self)@,
            row.id != 0 && !event_has_id(old(self)@.rows, row.id) && row.id < u64::MAX ==> r
                == Ok::<u64, DbError>(row.id) && final(self)@.rows == old(self)@.rows.push(row@)
                && final(self)@.next_id == (if row.id >= old(self)@.next_id {
                (row.id + 1) as u64
            } else {
                old(self)@.next_id
            }),
    {
        let ghost pre = self@;
        if row.id == 0 {
            if self.next_id == u64::MAX {
                return Err(DbError::IdSpaceExhausted);
            }
            let id = self.next_id;
            let mut row = row;
            row.id = id;
            self.next_id = id + 1;
            self.rows.push(row);
            proof {
                assert(self@.rows =~= pre.rows.push(row@));
                assert(row@ == EventView { id: pre.next_id, ..row@ });
            }
            Ok(id)
        } else {
            if self.index_of(row.id).is_some() {
                return Err(DbError::UniqueConstraintViolation);
            }
            if row.id == u64::MAX {
                return Err(DbError::IdSpaceExhausted);
            }
            if row.id >= self.next_id {
                self.next_id = row.id + 1;
            }
            let id = row.id;
            self.rows.push(row);
            proof {
                assert(self@.rows =~= pre.rows.push(row@));
            }
            Ok(id)
        }
    }

    /// Point lookup by primary key.
    pub fn find(&self, id: u64) -> (r: Option<&Event>)
        requires
            self.wf(),
        ensures
            match r {
                Some(e) => event_has_id(self@.rows, id) && e@ == self@.rows[event_idx_of(
                    self@.rows,
                    id,
                )],
                None => !event_has_id(self@.rows, id),
            },
    {
        match self.index_of(id) {
            Some(i) => {
                proof {
                    let w = event_idx_of(self@.rows, id);
                    assert(self@.rows[i as int].id == id);
                    assert(0 <= w < self@.rows.len() && self@.rows[w].id == id);
                    assert(w == i as int);
                }
                Some(&self.rows[i])
            },
            None => None,
        }
    }

    /// Delete the row carrying `id`; refused when no such row is live.
    /// The next identifier to assign is kept, so the deleted identifier
    /// is never handed out again.
    pub fn delete(&mut self, id: u64) -> (r: Result<(), DbError>)
        requires
            old(self).wf(),
        ensures
            final(self).wf(),
            final(self)@.next_id == old(self)@.next_id,
            event_has_id(old(self)@.rows, id) ==> r == Ok::<(), DbError>(()) && final(self)@.rows
                == old(self)@.rows.remove(event_idx_of(old(self)@.rows, id)),
            !event_has_id(old(self)@.rows, id) ==> r == Err::<(), DbError>(DbError::NotFound)
                && final(self)@ == old(self)@,
    {
        match self.index_of(id) {
            Some(i) => {
                let ghost pre = self@;
                self.rows.remove(i);
                proof {
                    let w = event_idx_of(pre.rows, id);
                    assert(pre.rows[i as int].id == id);
                    assert(0 <= w < pre.rows.len() && pre.rows[w].id == id);
                    assert(w == i as int);
                    assert(self@.rows =~= pre.rows.remove(i as int));
                    assert forall|p: int, q: int|
                        0 <= p < q < self@.rows.len() implies self@.rows[p].id
                        != self@.rows[q].id by {
                        let rest = pre.rows.remove(i as int);
                        assert(rest[p] == if p < i { pre.rows[p] } else { pre.rows[p + 1] });
                        assert(rest[q] == if q < i { pre.rows[q] } else { pre.rows[q + 1] });
                    }
                }
                Ok(())
            },
            None => Err(DbError::NotFound),
        }
    }

    /// Every live row, in storage order (callers must not lean on the
    /// order: it is not part of the table's contract).
    pub fn scan(&self) -> (r: &Vec<Event>)
        ensures
            r@.map_values(|e: Event| e@) == self@.rows,
    {
        &self.rows
    }
}

} // verus!
