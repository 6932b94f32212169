use vstd::prelude::*;

use crate::db::{Database, DbView};
use crate::errors::DbError;
use crate::reducers::{
    create_event, create_event_result, create_event_step, create_message, create_message_result,
    create_message_step, increment_counter, increment_counter_result, increment_counter_step,
    init, on_module_update,
};
use crate::rows::Timestamp;

verus! {

/// One reducer invocation: the name of the entry point and its
/// arguments, as a caller hands them to the executor.
pub enum ReducerCall {
    /// Upsert the named counter.
    IncrementCounter { name: String, amount: i64 },
    /// Append a message row.
    CreateMessage { sender: String, content: String, channel: String },
    /// Append an event row.
    CreateEvent { event_type: String, source: String, data: String },
    /// Lifecycle hook: first publish.
    Init,
    /// Lifecycle hook: schema or version change.
    OnModuleUpdate,
}

/// Mathematical image of a [`ReducerCall`].
pub ghost enum CallView {
    IncrementCounter { name: Seq<char>, amount: i64 },
    CreateMessage { sender: Seq<char>, content: Seq<char>, channel: Seq<char> },
    CreateEvent { event_type: Seq<char>, source: Seq<char>, data: Seq<char> },
    Init,
    OnModuleUpdate,
}

impl View for ReducerCall {
    type V = CallView;

    open spec fn view(&self) -> CallView {
        match self {
            ReducerCall::IncrementCounter { name, amount } => CallView::IncrementCounter {
                name: name@,
                amount: *amount,
            },
            ReducerCall::CreateMessage { sender, content, channel } => CallView::CreateMessage {
                sender: sender@,
                content: content@,
                channel: channel@,
            },
            ReducerCall::CreateEvent { event_type, source, data } => CallView::CreateEvent {
                event_type: event_type@,
                source: source@,
                data: data@,
            },
            ReducerCall::Init => CallView::Init,
            ReducerCall::OnModuleUpdate => CallView::OnModuleUpdate,
        }
    }
}

/// The store after one invocation `c` runs at `now`, as one atomic
/// transaction: on success all of its writes, on failure none of them.
pub open spec fn step(s: DbView, now: Timestamp, c: CallView) -> DbView {
    match c {
        CallView::IncrementCounter { name, amount } => increment_counter_step(s, now, name, amount),
        CallView::CreateMessage { sender, content, channel } => create_message_step(
            s,
            now,
            sender,
            content,
            channel,
        ),
        CallView::CreateEvent { event_type, source, data } => create_event_step(
            s,
            now,
            event_type,
            source,
            data,
        ),
        CallView::Init => s,
        CallView::OnModuleUpdate => s,
    }
}

/// Whether the invocation `c` commits or aborts on `s`, and with which
/// error it aborts.
pub open spec fn step_result(s: DbView, c: CallView) -> Result<(), DbError> {
    match c {
        CallView::IncrementCounter { name, amount } => increment_counter_result(s, name, amount),
        CallView::CreateMessage { .. } => create_message_result(s),
        CallView::CreateEvent { .. } => create_event_result(s),
        CallView::Init => Ok(()),
        CallView::OnModuleUpdate => Ok(()),
    }
}

/// Run one reducer invocation as a single atomic unit.
///
/// The executor binds the one timestamp `now` at the start of the
/// transaction; every row the invocation writes carries it. Callers
/// serialize their invocations (the exclusive `&mut` borrow of the
/// store enforces exactly that), so each invocation observes the
/// committed result of all prior ones and never a partial state. On
/// failure nothing is committed: the store is exactly as it was, and
/// the error is returned to the caller.
pub fn run_reducer(db: &mut Database, now: Timestamp, call: ReducerCall) -> (r: Result<
    (),
    DbError,
>)
    requires
        old(db).wf(),
    ensures
        final(db).wf(),
        final(db)@ == step(old(db)@, now, call@),
        r == step_result(old(db)@, call@),
        r is Err ==> final(db)@ == old(db)@,
{
    match call {
        ReducerCall::IncrementCounter { name, amount } => increment_counter(db, now, name, amount),
        ReducerCall::CreateMessage { sender, content, channel } => create_message(
            db,
            now,
            sender,
            content,
            channel,
        ),
        ReducerCall::CreateEvent { event_type, source, data } => create_event(
            db,
            now,
            event_type,
            source,
            data,
        ),
        ReducerCall::Init => {
            init(db);
            Ok(())
        },
        ReducerCall::OnModuleUpdate => {
            on_module_update(db);
            Ok(())
        },
    }
}

} // verus!
