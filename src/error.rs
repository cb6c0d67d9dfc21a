//! Errors of the mapping layer.
use vstd::prelude::*;

verus! {

/// What is wrong with an entity's declared columns and indexes.
#[derive(Debug, Clone, Copy, PartialEq, Eq, Structural)]
pub enum SchemaFault {
    /// The column at this position repeats the name of an earlier column.
    DuplicateColumn(usize),
    /// The index at this position lists no column.
    EmptyIndex(usize),
    /// The index at this position declares a column count other than the
    /// number of columns it lists.
    ColumnCountMismatch(usize),
    /// The index at the first position lists, at the second position, a
    /// column that the entity does not have.
    UnknownIndexColumn(usize, usize),
}

#[derive(Debug)]
pub enum OrmError {
    /// A malformed or inconsistent entity description.
    Schema(SchemaFault),
    /// A field or restriction names a column that the entity does not have.
    UnknownColumn(String),
    /// A select over several columns was given no restriction.
    NoRestrictions,
    /// The column at this position of a payload holds a text that cannot cross
    /// the engine boundary.
    Marshal(usize),
    /// The engine answered with this status code.
    Boundary(i32),
    /// A row has no column at this position.
    NoColumnAt(usize),
}

/// The outcome of an engine call: success for status `0`, otherwise a
/// boundary error carrying the status.
pub fn status_result(st: i32) -> (r: Result<(), OrmError>)
    ensures
        r is Ok <==> st == 0,
        r matches Err(e) ==> e matches OrmError::Boundary(c) && c == st,
{
    if st == 0 {
        Ok(())
    } else {
        Err(OrmError::Boundary(st))
    }
}

} // verus!
