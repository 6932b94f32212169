use vstd::prelude::*;

verus! {

/// Why a table operation or a reducer invocation failed.
///
/// Any error raised inside a reducer aborts the whole invocation: no
/// partial write stays visible, and the error is handed back to the
/// caller rather than swallowed.
#[derive(Clone, Copy, PartialEq, Eq, Structural, Debug)]
pub enum DbError {
    /// An insert supplied a primary key that is already live in the table.
    UniqueConstraintViolation,
    /// A delete or point operation named a primary key with no live row.
    NotFound,
    /// A counter update would leave the signed 64-bit range; the engine
    /// uses checked arithmetic and rejects such an update.
    CounterOverflow,
    /// An auto-increment table has no fresh identifier left to assign.
    IdSpaceExhausted,
}

} // verus!
