use vstd::prelude::*;

use crate::db::{db_view_wf, DbView};
use crate::executor::{step, CallView};
use crate::reducers::{counter_sum_overflows, create_event_step, create_message_step};
use crate::rows::{EventView, MessageView, Timestamp};

verus! {

/// One timestamped invocation of the serialized executor.
pub ghost struct TimedCall {
    pub now: Timestamp,
    pub call: CallView,
}

/// The store after the invocations in `calls` run in order, each as one
/// atomic serialized transaction.
pub open spec fn run(s: DbView, calls: Seq<TimedCall>) -> DbView
    decreases calls.len(),
{
    if calls.len() == 0 {
        s
    } else {
        run(step(s, calls.first().now, calls.first().call), calls.drop_first())
    }
}

/// The value the counter `name` holds in `s`, with 0 for a counter not
/// yet created (its first increment starts from nothing).
pub open spec fn value_of(s: DbView, name: Seq<char>) -> int {
    if s.counters.contains_key(name) {
        s.counters[name].value as int
    } else {
        0
    }
}

/// The amount `c` adds to the counter `name`: its amount for an
/// increment of that very name, 0 for every other invocation.
pub open spec fn amount_for(c: CallView, name: Seq<char>) -> int {
    match c {
        CallView::IncrementCounter { name: n, amount } => if n == name {
            amount as int
        } else {
            0
        },
        _ => 0,
    }
}

/// The sum of all amounts the invocations in `calls` add to `name`.
pub open spec fn sum_for(calls: Seq<TimedCall>, name: Seq<char>) -> int
    decreases calls.len(),
{
    if calls.len() == 0 {
        0
    } else {
        amount_for(calls.first().call, name) + sum_for(calls.drop_first(), name)
    }
}

/// Every increment of `name` in `calls` stays within the signed 64-bit
/// range at the state it runs against. Nothing is asked of the other
/// invocations: whether they commit or abort, they add nothing to
/// `name`.
pub open spec fn increments_fit(s: DbView, calls: Seq<TimedCall>, name: Seq<char>) -> bool
    decreases calls.len(),
{
    calls.len() == 0 || {
        &&& match calls.first().call {
            CallView::IncrementCounter { name: n, amount } => n == name
                ==> !counter_sum_overflows(s, n, amount),
            _ => true,
        }
        &&& increments_fit(
            step(s, calls.first().now, calls.first().call),
            calls.drop_first(),
            name,
        )
    }
}

/// One invocation moves the counter `name` by exactly the amount it
/// aims at it. An increment of `name` that fits adds its amount; every
/// other invocation — an increment of another name, an append, a failed
/// invocation, a lifecycle hook — leaves the value alone.
proof fn lemma_step_value(s: DbView, now: Timestamp, c: CallView, name: Seq<char>)
    requires
        match c {
            CallView::IncrementCounter { name: n, amount } => n == name
                ==> !counter_sum_overflows(s, n, amount),
            _ => true,
        },
    ensures
        value_of(step(s, now, c), name) == value_of(s, name) + amount_for(c, name),
{
}

/// Law: over any sequence of serialized invocations, the final value of
/// the counter `name` equals its starting value plus the sum of the
/// amounts of the increments aimed at it, regardless of how those
/// increments interleave with invocations of other reducers or
/// increments of other names — provided each increment of `name` stays
/// within the 64-bit range when it is applied.
pub proof fn lemma_increments_accumulate(s: DbView, calls: Seq<TimedCall>, name: Seq<char>)
    requires
        increments_fit(s, calls, name),
    ensures
        value_of(run(s, calls), name) == value_of(s, name) + sum_for(calls, name),
    decreases calls.len(),
{
    if calls.len() > 0 {
        let s1 = step(s, calls.first().now, calls.first().call);
        lemma_step_value(s, calls.first().now, calls.first().call, name);
        lemma_increments_accumulate(s1, calls.drop_first(), name);
    }
}

/// `c` is an increment of `name` by exactly 1.
pub open spec fn is_unit_increment(c: CallView, name: Seq<char>) -> bool {
    match c {
        CallView::IncrementCounter { name: n, amount } => n == name && amount == 1,
        _ => false,
    }
}

/// Law: serialized execution never loses an update. N invocations of
/// `increment_counter(name, 1)` leave the counter exactly N above where
/// it started, whatever the starting state, as long as the total stays
/// within the 64-bit range.
pub proof fn lemma_unit_increments_count(s: DbView, calls: Seq<TimedCall>, name: Seq<char>)
    requires
        forall|k: int| 0 <= k < calls.len() ==> is_unit_increment(#[trigger] calls[k].call, name),
        value_of(s, name) + calls.len() <= i64::MAX,
    ensures
        value_of(run(s, calls), name) == value_of(s, name) + calls.len(),
    decreases calls.len(),
{
    if calls.len() > 0 {
        assert(is_unit_increment(calls[0].call, name));
        let s1 = step(s, calls.first().now, calls.first().call);
        lemma_step_value(s, calls.first().now, calls.first().call, name);
        assert forall|k: int| 0 <= k < calls.drop_first().len() implies is_unit_increment(
            #[trigger] calls.drop_first()[k].call,
            name,
        ) by {
            assert(calls.drop_first()[k] == calls[k + 1]);
        }
        lemma_unit_increments_count(s1, calls.drop_first(), name);
    }
}

/// One invocation only appends to the message and event tables: the old
/// rows stay in place, at most one row joins at the end carrying an
/// identifier at least the table's next one, and the next identifier
/// never moves backwards — whether the invocation commits or aborts.
proof fn lemma_step_appends(s: DbView, now: Timestamp, c: CallView)
    requires
        db_view_wf(s),
    ensures
        db_view_wf(step(s, now, c)),
        s.messages.next_id <= step(s, now, c).messages.next_id,
        s.messages.rows.len() <= step(s, now, c).messages.rows.len() <= s.messages.rows.len() + 1,
        step(s, now, c).messages.rows.subrange(0, s.messages.rows.len() as int)
            == s.messages.rows,
        forall|i: int|
            s.messages.rows.len() <= i < step(s, now, c).messages.rows.len()
                ==> s.messages.next_id <= #[trigger] step(s, now, c).messages.rows[i].id < step(
                s,
                now,
                c,
            ).messages.next_id,
        s.events.next_id <= step(s, now, c).events.next_id,
        s.events.rows.len() <= step(s, now, c).events.rows.len() <= s.events.rows.len() + 1,
        step(s, now, c).events.rows.subrange(0, s.events.rows.len() as int) == s.events.rows,
        forall|i: int|
            s.events.rows.len() <= i < step(s, now, c).events.rows.len() ==> s.events.next_id
                <= #[trigger] step(s, now, c).events.rows[i].id < step(s, now, c).events.next_id,
{
    let t = step(s, now, c);
    assert(s.messages.rows.subrange(0, s.messages.rows.len() as int) =~= s.messages.rows);
    assert(s.events.rows.subrange(0, s.events.rows.len() as int) =~= s.events.rows);
    if t.messages.rows.len() > s.messages.rows.len() {
        assert(t.messages.rows.subrange(0, s.messages.rows.len() as int) =~= s.messages.rows);
    }
    if t.events.rows.len() > s.events.rows.len() {
        assert(t.events.rows.subrange(0, s.events.rows.len() as int) =~= s.events.rows);
    }
}

/// Law: message and event identifiers strictly increase and are never
/// reused across the tables' lifetime. Over any sequence of serialized
/// invocations — failed ones included — the rows live at the start are
/// still there, unchanged and in place; every row appended since
/// carries an identifier no smaller than the starting next identifier,
/// so larger than every identifier assigned before; and the appended
/// identifiers strictly increase in creation order.
pub proof fn lemma_ids_strictly_increase(s: DbView, calls: Seq<TimedCall>)
    requires
        db_view_wf(s),
    ensures
        db_view_wf(run(s, calls)),
        s.messages.next_id <= run(s, calls).messages.next_id,
        s.messages.rows.len() <= run(s, calls).messages.rows.len(),
        run(s, calls).messages.rows.subrange(0, s.messages.rows.len() as int) == s.messages.rows,
        forall|i: int|
            s.messages.rows.len() <= i < run(s, calls).messages.rows.len() ==> s.messages.next_id
                <= #[trigger] run(s, calls).messages.rows[i].id < run(s, calls).messages.next_id,
        forall|i: int, j: int|
            s.messages.rows.len() <= i < j < run(s, calls).messages.rows.len() ==> run(
                s,
                calls,
            ).messages.rows[i].id < run(s, calls).messages.rows[j].id,
        s.events.next_id <= run(s, calls).events.next_id,
        s.events.rows.len() <= run(s, calls).events.rows.len(),
        run(s, calls).events.rows.subrange(0, s.events.rows.len() as int) == s.events.rows,
        forall|i: int|
            s.events.rows.len() <= i < run(s, calls).events.rows.len() ==> s.events.next_id
                <= #[trigger] run(s, calls).events.rows[i].id < run(s, calls).events.next_id,
        forall|i: int, j: int|
            s.events.rows.len() <= i < j < run(s, calls).events.rows.len() ==> run(
                s,
                calls,
            ).events.rows[i].id < run(s, calls).events.rows[j].id,
    decreases calls.len(),
{
    if calls.len() == 0 {
        assert(run(s, calls).messages.rows.subrange(0, s.messages.rows.len() as int)
            =~= s.messages.rows);
        assert(run(s, calls).events.rows.subrange(0, s.events.rows.len() as int)
            =~= s.events.rows);
    } else {
        let s1 = step(s, calls.first().now, calls.first().call);
        let t = run(s1, calls.drop_first());
        assert(run(s, calls) == t);
        lemma_step_appends(s, calls.first().now, calls.first().call);
        lemma_ids_strictly_increase(s1, calls.drop_first());
        assert forall|i: int| 0 <= i < s1.messages.rows.len() implies t.messages.rows[i]
            == s1.messages.rows[i] by {
            assert(t.messages.rows.subrange(0, s1.messages.rows.len() as int)[i]
                == s1.messages.rows[i]);
        }
        assert forall|i: int| 0 <= i < s.messages.rows.len() implies t.messages.rows[i]
            == s.messages.rows[i] by {
            assert(s1.messages.rows.subrange(0, s.messages.rows.len() as int)[i]
                == s.messages.rows[i]);
        }
        assert(t.messages.rows.subrange(0, s.messages.rows.len() as int) =~= s.messages.rows);
        assert forall|i: int| 0 <= i < s1.events.rows.len() implies t.events.rows[i]
            == s1.events.rows[i] by {
            assert(t.events.rows.subrange(0, s1.events.rows.len() as int)[i]
                == s1.events.rows[i]);
        }
        assert forall|i: int| 0 <= i < s.events.rows.len() implies t.events.rows[i]
            == s.events.rows[i] by {
            assert(s1.events.rows.subrange(0, s.events.rows.len() as int)[i]
                == s.events.rows[i]);
        }
        assert(t.events.rows.subrange(0, s.events.rows.len() as int) =~= s.events.rows);
    }
}

/// Law: a row handed to `create_message` is committed equal to the row
/// handed in, except for the key field, which the table assigned; a
/// scan hands it back as the last row in storage order.
pub proof fn lemma_message_round_trip(
    s: DbView,
    now: Timestamp,
    sender: Seq<char>,
    content: Seq<char>,
    channel: Seq<char>,
)
    requires
        s.messages.next_id < u64::MAX,
    ensures
        create_message_step(s, now, sender, content, channel).messages.rows.len()
            == s.messages.rows.len() + 1,
        create_message_step(s, now, sender, content, channel).messages.rows.last()
            == (MessageView { id: s.messages.next_id, sender, content, channel, timestamp: now }),
{
}

/// Law: a row handed to `create_event` is committed equal to the row
/// handed in, except for the key field, which the table assigned; a
/// scan hands it back as the last row in storage order.
pub proof fn lemma_event_round_trip(
    s: DbView,
    now: Timestamp,
    event_type: Seq<char>,
    source: Seq<char>,
    data: Seq<char>,
)
    requires
        s.events.next_id < u64::MAX,
    ensures
        create_event_step(s, now, event_type, source, data).events.rows.len() == s.events.rows.len()
            + 1,
        create_event_step(s, now, event_type, source, data).events.rows.last() == (EventView {
            id: s.events.next_id,
            event_type,
            source,
            data,
            timestamp: now,
        }),
{
}

} // verus!
