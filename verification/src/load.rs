//! The bulk loader: creates the destination table, then inserts every row
//! inside one transaction, prepared once and executed once per row, with a
//! single commit at the end. Any engine failure aborts the run with the
//! transaction never committed, so the load is all-or-nothing. Progress is
//! reported after every 1000 inserted rows.

use crate::db;
use crate::infer::column_types;
use crate::schema::{build_create_sql, build_insert_sql};
use crate::types::{ColumnType, LoadError, LoadStage};
use vstd::prelude::*;

verus! {

/// A progress line is due after every 1000th inserted row.
pub fn progress_due(rows_done: usize) -> (r: bool)
    ensures
        r == (rows_done > 0 && rows_done % 1000 == 0),
{
    rows_done > 0 && rows_done % 1000 == 0
}

/// Creates the table and loads every row into it through the given
/// connection: one CREATE TABLE from the headers and types, then one
/// transaction around one prepared INSERT executed per row in order, then
/// one commit. On success the returned count is exactly the row count; on
/// the first engine failure the run stops with the stage it failed at, the
/// rows inserted by then, and the transaction uncommitted.
pub fn load_table(
    conn: &mut rusqlite::Connection,
    table: &str,
    headers: &Vec<String>,
    types: &Vec<ColumnType>,
    records: &Vec<Vec<String>>,
) -> (r: Result<usize, LoadError>)
    requires
        headers@.len() == types@.len(),
    ensures
        r matches Ok(n) ==> n == records@.len(),
        r matches Err(e) ==> e.rows_done <= records@.len() && e.stage != LoadStage::Open,
{
    let create_sql = build_create_sql(table, headers, types);
    match db::exec_sql(conn, create_sql.as_str()) {
        Ok(_) => {},
        Err(e) => {
            return Err(LoadError { stage: LoadStage::CreateTable, rows_done: 0, cause: e });
        },
    }
    let insert_sql = build_insert_sql(table, headers);
    let tx = match db::begin_tx(conn) {
        Ok(tx) => tx,
        Err(e) => {
            return Err(LoadError { stage: LoadStage::Begin, rows_done: 0, cause: e });
        },
    };
    let done = match insert_all(&tx, insert_sql.as_str(), records) {
        Ok(done) => done,
        Err(e) => {
            return Err(e);
        },
    };
    match db::commit_tx(tx) {
        Ok(_) => {},
        Err(e) => {
            return Err(LoadError { stage: LoadStage::Commit, rows_done: done, cause: e });
        },
    }
    Ok(done)
}

/// Prepares the INSERT statement once against the open transaction and
/// executes it for every row in order; the statement lives no longer than
/// this call, so the transaction is free again for the commit.
fn insert_all(
    tx: &rusqlite::Transaction<'_>,
    insert_sql: &str,
    records: &Vec<Vec<String>>,
) -> (r: Result<usize, LoadError>)
    ensures
        r matches Ok(n) ==> n == records@.len(),
        r matches Err(e) ==> e.rows_done <= records@.len() && (e.stage == LoadStage::Prepare
            || e.stage == LoadStage::Insert),
{
    let mut stmt = match db::prepare_stmt(tx, insert_sql) {
        Ok(stmt) => stmt,
        Err(e) => {
            return Err(LoadError { stage: LoadStage::Prepare, rows_done: 0, cause: e });
        },
    };
    let n = records.len();
    let mut done: usize = 0;
    while done < n
        invariant
            done <= n == records@.len(),
        decreases n - done,
    {
        match db::exec_row(&mut stmt, &records[done]) {
            Ok(_) => {},
            Err(e) => {
                return Err(LoadError { stage: LoadStage::Insert, rows_done: done, cause: e });
            },
        }
        done += 1;
        if progress_due(done) {
            db::report_progress(done);
        }
    }
    Ok(done)
}

/// The whole load pipeline against a database file: decide every column's
/// type (inferred when asked, TEXT otherwise), then create and fill the
/// table as load_table does. On success the count is exactly the row count.
pub fn run_load(
    db_path: &str,
    table: &str,
    headers: &Vec<String>,
    records: &Vec<Vec<String>>,
    infer: bool,
) -> (r: Result<usize, LoadError>)
    ensures
        r matches Ok(n) ==> n == records@.len(),
        r matches Err(e) ==> e.rows_done <= records@.len(),
{
    let mut conn = match db::open_db(db_path) {
        Ok(conn) => conn,
        Err(e) => {
            return Err(LoadError { stage: LoadStage::Open, rows_done: 0, cause: e });
        },
    };
    load_into(&mut conn, table, headers, records, infer)
}

/// As run_load, against an already open connection.
pub fn load_into(
    conn: &mut rusqlite::Connection,
    table: &str,
    headers: &Vec<String>,
    records: &Vec<Vec<String>>,
    infer: bool,
) -> (r: Result<usize, LoadError>)
    ensures
        r matches Ok(n) ==> n == records@.len(),
        r matches Err(e) ==> e.rows_done <= records@.len() && e.stage != LoadStage::Open,
{
    let types = column_types(headers.len(), records, infer);
    proof {
        assert(types@.len() == headers@.len());
    }
    load_table(conn, table, headers, &types, records)
}

} // verus!
