//! The boundary to the embedded relational storage engine (rusqlite) and to
//! the process's standard output. Every function here is trusted: its body
//! makes one outside call, and its contract states only what the engine's
//! documentation promises of every outcome. Success is never promised — it
//! depends on the state of the database file.

use std::io::Write;
use vstd::prelude::*;

verus! {

#[verifier::external_type_specification]
#[verifier::external_body]
pub struct ExConnection(rusqlite::Connection);

#[verifier::external_type_specification]
#[verifier::external_body]
pub struct ExTransaction<'conn>(rusqlite::Transaction<'conn>);

#[verifier::external_type_specification]
#[verifier::external_body]
pub struct ExStatement<'conn>(rusqlite::Statement<'conn>);

#[verifier::external_type_specification]
#[verifier::external_body]
pub struct ExSqlError(rusqlite::Error);

/// Relies on rusqlite::Connection::open: opens the database file at the given
/// path, creating it if absent; fails if the file cannot be opened as a
/// database.
#[verifier::external_body]
pub(crate) fn open_db(path: &str) -> Result<rusqlite::Connection, rusqlite::Error> {
    rusqlite::Connection::open(path)
}

/// Relies on rusqlite::Connection::execute: runs one SQL statement that takes
/// no parameters; fails if the engine rejects the statement.
#[verifier::external_body]
pub(crate) fn exec_sql(conn: &rusqlite::Connection, sql: &str) -> Result<usize, rusqlite::Error> {
    conn.execute(sql, [])
}

/// Relies on rusqlite::Connection::transaction: begins a transaction that is
/// rolled back when dropped without a commit.
#[verifier::external_body]
pub(crate) fn begin_tx<'c>(
    conn: &'c mut rusqlite::Connection,
) -> Result<rusqlite::Transaction<'c>, rusqlite::Error> {
    conn.transaction()
}

/// Relies on rusqlite::Connection::prepare (reached through the transaction's
/// deref): compiles one SQL statement for repeated execution.
#[verifier::external_body]
pub(crate) fn prepare_stmt<'a, 'c>(
    tx: &'a rusqlite::Transaction<'c>,
    sql: &str,
) -> Result<rusqlite::Statement<'a>, rusqlite::Error> {
    tx.prepare(sql)
}

/// Relies on rusqlite::Statement::execute (with rusqlite::params_from_iter):
/// binds the row's cells positionally as text parameters, in order, and runs
/// the statement once; fails if the cell count does not match the statement's
/// placeholder count or if the engine rejects a value.
#[verifier::external_body]
pub(crate) fn exec_row(
    stmt: &mut rusqlite::Statement<'_>,
    row: &Vec<String>,
) -> Result<usize, rusqlite::Error> {
    stmt.execute(rusqlite::params_from_iter(row.iter()))
}

/// Relies on rusqlite::Transaction::commit: consumes the transaction and makes
/// its writes durable; nothing is committed if it fails.
#[verifier::external_body]
pub(crate) fn commit_tx(tx: rusqlite::Transaction<'_>) -> Result<(), rusqlite::Error> {
    tx.commit()
}

/// Relies on std::io::Stdout (through the writeln macro) to print one progress
/// line; what is written is not modeled, and a write failure is ignored.
#[verifier::external_body]
pub(crate) fn report_progress(rows_done: usize) {
    let _ = writeln!(std::io::stdout(), "Inserted {} rows...", rows_done);
}

} // verus!
