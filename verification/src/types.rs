//! The storage types a destination column can have, and the error type of a
//! load run.

use vstd::prelude::*;

verus! {

/// The declared storage type of one destination column.
#[derive(Clone, Copy, PartialEq, Eq, Structural, Debug)]
pub enum ColumnType {
    Integer,
    Real,
    Text,
}

/// The SQL keyword that names a column type in a schema definition.
pub open spec fn sql_type_spec(t: ColumnType) -> Seq<char> {
    match t {
        ColumnType::Integer => "INTEGER"@,
        ColumnType::Real => "REAL"@,
        ColumnType::Text => "TEXT"@,
    }
}

pub fn sql_type(t: ColumnType) -> (r: &'static str)
    ensures
        r@ == sql_type_spec(t),
{
    match t {
        ColumnType::Integer => "INTEGER",
        ColumnType::Real => "REAL",
        ColumnType::Text => "TEXT",
    }
}

/// The step of a load run at which the storage engine reported a failure.
#[derive(Clone, Copy, PartialEq, Eq, Structural, Debug)]
pub enum LoadStage {
    /// Opening or creating the database file.
    Open,
    /// Executing the CREATE TABLE statement.
    CreateTable,
    /// Opening the load transaction.
    Begin,
    /// Preparing the parameterized INSERT statement.
    Prepare,
    /// Executing the INSERT for one row.
    Insert,
    /// Committing the load transaction.
    Commit,
}

/// A failure of a load run: the step it happened at, how many rows had been
/// inserted by then, and the storage engine's own error.
pub struct LoadError {
    pub stage: LoadStage,
    pub rows_done: usize,
    pub cause: rusqlite::Error,
}

} // verus!
