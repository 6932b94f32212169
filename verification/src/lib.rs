//! A small deterministic table-mutation engine.
//!
//! Typed tables hold rows keyed by a primary key; auto-increment tables
//! assign fresh identifiers themselves, monotonically and never reusing
//! one. Named mutation entry points ("reducers") read and write the
//! tables as one atomic unit: an invocation either commits all of its
//! writes or, on failure, leaves every table exactly as it found it.
//!
//! - [`rows`] declares the row types and [`schema`] the tables' shapes.
//! - [`counter_table`], [`message_table`] and [`event_table`] implement
//!   the per-table store: insert, delete, point lookup and scan, with
//!   key assignment for the auto-increment tables.
//! - [`db`] bundles the three tables; [`reducers`] holds the mutation
//!   entry points and [`executor`] runs one of them per transaction.
//! - [`laws`] states and proves what holds across whole sequences of
//!   invocations: counter increments accumulate exactly, and assigned
//!   identifiers strictly increase and are never reused.

pub mod counter_table;
pub mod db;
pub mod errors;
pub mod event_table;
pub mod executor;
pub mod laws;
pub mod message_table;
pub mod reducers;
pub mod rows;
pub mod schema;
