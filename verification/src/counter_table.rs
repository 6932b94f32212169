use vstd::prelude::*;

use crate::errors::DbError;
use crate::rows::{Counter, CounterView};

verus! {

/// The map a sequence of counter rows represents, keyed by counter name.
///
/// A later row with the same name would win, but a well-formed table
/// keeps its names distinct, so the fold order never matters.
pub open spec fn counter_map_of(rows: Seq<CounterView>) -> Map<Seq<char>, CounterView>
    decreases rows.len(),
{
    if rows.len() == 0 {
        Map::empty()
    } else {
        counter_map_of(rows.drop_last()).insert(rows.last().name, rows.last())
    }
}

/// No two rows carry the same name.
pub open spec fn distinct_names(rows: Seq<CounterView>) -> bool {
    forall|i: int, j: int| 0 <= i < j < rows.len() ==> rows[i].name != rows[j].name
}

/// A key is in the folded map exactly when some row carries it.
proof fn lemma_counter_map_domain(rows: Seq<CounterView>, k: Seq<char>)
    ensures
        counter_map_of(rows).contains_key(k) <==> exists|i: int|
            0 <= i < rows.len() && rows[i].name == k,
    decreases rows.len(),
{
    if rows.len() > 0 {
        let prefix = rows.drop_last();
        lemma_counter_map_domain(prefix, k);
        if exists|i: int| 0 <= i < rows.len() && rows[i].name == k {
            let i = choose|i: int| 0 <= i < rows.len() && rows[i].name == k;
            if i < rows.len() - 1 {
                assert(prefix[i] == rows[i]);
            }
        }
        if counter_map_of(prefix).contains_key(k) {
            let i = choose|i: int| 0 <= i < prefix.len() && prefix[i].name == k;
            assert(rows[i] == prefix[i]);
        }
    }
}

/// With distinct names, each row is the map's value at its own name.
proof fn lemma_counter_map_index(rows: Seq<CounterView>, i: int)
    requires
        distinct_names(rows),
        0 <= i < rows.len(),
    ensures
        counter_map_of(rows).contains_key(rows[i].name),
        counter_map_of(rows)[rows[i].name] == rows[i],
    decreases rows.len(),
{
    let prefix = rows.drop_last();
    if i < rows.len() - 1 {
        assert forall|p: int, q: int| 0 <= p < q < prefix.len() implies prefix[p].name
            != prefix[q].name by {
            assert(prefix[p] == rows[p]);
            assert(prefix[q] == rows[q]);
        }
        assert(prefix[i] == rows[i]);
        lemma_counter_map_index(prefix, i);
        assert(rows.last().name != rows[i].name);
    }
}

/// Removing a row removes exactly its key from the folded map.
proof fn lemma_counter_map_remove(rows: Seq<CounterView>, i: int)
    requires
        distinct_names(rows),
        0 <= i < rows.len(),
    ensures
        counter_map_of(rows.remove(i)) =~= counter_map_of(rows).remove(rows[i].name),
    decreases rows.len(),
{
    let prefix = rows.drop_last();
    assert forall|p: int, q: int| 0 <= p < q < prefix.len() implies prefix[p].name
        != prefix[q].name by {
        assert(prefix[p] == rows[p]);
        assert(prefix[q] == rows[q]);
    }
    if i == rows.len() - 1 {
        assert(rows.remove(i) =~= prefix);
        lemma_counter_map_domain(prefix, rows[i].name);
        assert forall|p: int| 0 <= p < prefix.len() implies prefix[p].name != rows[i].name by {
            assert(prefix[p] == rows[p]);
        }
        assert(!counter_map_of(prefix).contains_key(rows[i].name));
        assert(counter_map_of(prefix).insert(rows.last().name, rows.last()).remove(
            rows[i].name,
        ) =~= counter_map_of(prefix));
    } else {
        let shorter = rows.remove(i);
        assert(shorter.last() == rows.last());
        assert(shorter.drop_last() =~= prefix.remove(i));
        assert(prefix[i] == rows[i]);
        lemma_counter_map_remove(prefix, i);
        assert(rows.last().name != rows[i].name);
        assert(counter_map_of(prefix).remove(rows[i].name).insert(rows.last().name, rows.last())
            =~= counter_map_of(prefix).insert(rows.last().name, rows.last()).remove(
            rows[i].name,
        ));
    }
}

/// The counters table: one live row per name, point lookup by name,
/// insert, delete and full scan. Its mathematical view is the map from
/// counter name to row.
pub struct CounterTable {
    rows: Vec<Counter>,
}

impl View for CounterTable {
    type V = Map<Seq<char>, CounterView>;

    closed spec fn view(&self) -> Map<Seq<char>, CounterView> {
        counter_map_of(self.row_views())
    }
}

impl CounterTable {
    /// The rows' mathematical images, in storage order.
    closed spec fn row_views(&self) -> Seq<CounterView> {
        self.rows@.map_values(|c: Counter| c@)
    }

    /// Well-formed: no two live rows share a name.
    pub closed spec fn wf(&self) -> bool {
        distinct_names(self.row_views())
    }

    /// An empty table.
    pub fn new() -> (t: CounterTable)
        ensures
            t.wf(),
            t@ == Map::<Seq<char>, CounterView>::empty(),
    {
        let t = CounterTable { rows: Vec::new() };
        proof {
            assert(t.row_views() =~= Seq::<CounterView>::empty());
        }
        t
    }

    /// The storage index of the row named `name`, if one is live.
    fn index_of(&self, name: &String) -> (r: Option<usize>)
        requires
            self.wf(),
        ensures
            match r {
                Some(i) => i < self.rows@.len() && self.rows@[i as int]@.name == name@
                    && self@.contains_key(name@) && self@[name@] == self.rows@[i as int]@,
                None => !self@.contains_key(name@),
            },
    {
        let n = self.rows.len();
        let mut i: usize = 0;
        while i < n
            invariant
                self.wf(),
                n == self.rows@.len(),
                0 <= i <= n,
                forall|j: int| 0 <= j < i ==> self.rows@[j]@.name != name@,
            decreases n - i,
        {
            if self.rows[i].name == *name {
                proof {
                    assert(self.row_views()[i as int] == self.rows@[i as int]@);
                    lemma_counter_map_index(self.row_views(), i as int);
                }
                return Some(i);
            }
            i += 1;
        }
        proof {
            lemma_counter_map_domain(self.row_views(), name@);
            assert forall|j: int| 0 <= j < self.row_views().len() implies self.row_views()[j].name
                != name@ by {
                assert(self.row_views()[j] == self.rows@[j]@);
            }
        }
        None
    }

    /// Point lookup by primary key.
    pub fn find(&self, name: &String) -> (r: Option<&Counter>)
        requires
            self.wf(),
        ensures
            match r {
                Some(c) => self@.contains_key(name@) && c@ == self@[name@],
                None => !self@.contains_key(name@),
            },
    {
        match self.index_of(name) {
            Some(i) => Some(&self.rows[i]),
            None => None,
        }
    }

    /// Insert a row; refused when its name is already live.
    pub fn insert(&mut self, row: Counter) -> (r: Result<(), DbError>)
        requires
            old(self).wf(),
        ensures
            final(self).wf(),
            old(self)@.contains_key(row.name@) ==> r == Err::<(), DbError>(
                DbError::UniqueConstraintViolation,
            ) && final(self)@ == old(self)@,
            !old(self)@.contains_key(row.name@) ==> r == Ok::<(), DbError>(()) && final(self)@
                == old(self)@.insert(row.name@, row@),
    {
        if self.index_of(&row.name).is_some() {
            return Err(DbError::UniqueConstraintViolation);
        }
        proof {
            lemma_counter_map_domain(self.row_views(), row.name@);
        }
        let ghost pre = self.row_views();
        self.rows.push(row);
        proof {
            assert(self.row_views() =~= pre.push(row@));
            assert(distinct_names(self.row_views()));
            assert(self.row_views().drop_last() =~= pre);
        }
        Ok(())
    }

    /// Delete the row named `name`; refused when no such row is live.
    pub fn delete(&mut self, name: &String) -> (r: Result<(), DbError>)
        requires
            old(self).wf(),
        ensures
            final(self).wf(),
            old(self)@.contains_key(name@) ==> r == Ok::<(), DbError>(()) && final(self)@
                == old(self)@.remove(name@),
            !old(self)@.contains_key(name@) ==> r == Err::<(), DbError>(DbError::NotFound)
                && final(self)@ == old(self)@,
    {
        match self.index_of(name) {
            Some(i) => {
                let ghost pre = self.row_views();
                proof {
                    lemma_counter_map_remove(pre, i as int);
                }
                self.rows.remove(i);
                proof {
                    assert(self.row_views() =~= pre.remove(i as int));
                    assert forall|p: int, q: int|
                        0 <= p < q < self.row_views().len() implies self.row_views()[p].name
                        != self.row_views()[q].name by {
                        let r = pre.remove(i as int);
                        assert(r[p] == if p < i { pre[p] } else { pre[p + 1] });
                        assert(r[q] == if q < i { pre[q] } else { pre[q + 1] });
                    }
                }
                Ok(())
            },
            None => Err(DbError::NotFound),
        }
    }

    /// Every live row, in unspecified order.
    pub fn scan(&self) -> (r: &Vec<Counter>)
        requires
            self.wf(),
        ensures
            forall|i: int| 0 <= i < r@.len() ==> #[trigger] self@.contains_key(r@[i]@.name)
                && self@[r@[i]@.name] == r@[i]@,
            forall|k: Seq<char>| self@.contains_key(k) ==> exists|i: int|
                0 <= i < r@.len() && r@[i]@.name == k,
            forall|i: int, j: int| 0 <= i < j < r@.len() ==> r@[i]@.name != r@[j]@.name,
    {
        proof {
            assert forall|i: int| 0 <= i < self.rows@.len() implies #[trigger] self@.contains_key(
                self.rows@[i]@.name,
            ) && self@[self.rows@[i]@.name] == self.rows@[i]@ by {
                assert(self.row_views()[i] == self.rows@[i]@);
                lemma_counter_map_index(self.row_views(), i);
            }
            assert forall|k: Seq<char>| self@.contains_key(k) implies exists|i: int|
                0 <= i < self.rows@.len() && self.rows@[i]@.name == k by {
                lemma_counter_map_domain(self.row_views(), k);
                let i = choose|i: int|
                    0 <= i < self.row_views().len() && self.row_views()[i].name == k;
                assert(self.rows@[i]@.name == k);
            }
            assert forall|i: int, j: int| 0 <= i < j < self.rows@.len() implies self.rows@[i]@.name
                != self.rows@[j]@.name by {
                assert(self.row_views()[i] == self.rows@[i]@);
                assert(self.row_views()[j] == self.rows@[j]@);
            }
        }
        &self.rows
    }
}

} // verus!
