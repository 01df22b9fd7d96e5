use csv_to_sqlite::load::{load_into, progress_due};
use csv_to_sqlite::types::LoadStage;
use rusqlite::Connection;

fn cells(xs: &[&str]) -> Vec<String> {
    xs.iter().map(|s| s.to_string()).collect()
}

fn scenario_rows() -> (Vec<String>, Vec<Vec<String>>) {
    let headers = cells(&["id", "name", "score"]);
    let records = vec![
        cells(&["1", "Alice", "9.5"]),
        cells(&["2", "Bob", ""]),
        cells(&["3", "Carol", "7.0"]),
    ];
    (headers, records)
}

fn declared_types(conn: &Connection, table: &str) -> Vec<String> {
    let mut stmt = conn
        .prepare(&format!("SELECT type FROM pragma_table_info('{}')", table))
        .unwrap();
    let rows = stmt.query_map([], |r| r.get::<_, String>(0)).unwrap();
    rows.map(|r| r.unwrap()).collect()
}

fn read_back(conn: &Connection, table: &str) -> Vec<Vec<String>> {
    let mut stmt = conn
        .prepare(&format!("SELECT * FROM {} ORDER BY rowid", table))
        .unwrap();
    let n = stmt.column_count();
    let rows = stmt
        .query_map([], |r| {
            let mut row: Vec<String> = Vec::new();
            for i in 0..n {
                row.push(r.get::<_, String>(i)?);
            }
            Ok(row)
        })
        .unwrap();
    rows.map(|r| r.unwrap()).collect()
}

#[test]
fn scenario_inferred_types() {
    let (headers, records) = scenario_rows();
    let mut conn = Connection::open_in_memory().unwrap();
    let r = load_into(&mut conn, "data", &headers, &records, true);
    assert_eq!(r.unwrap_or(usize::MAX), 3);
    assert_eq!(declared_types(&conn, "data"), vec!["INTEGER", "TEXT", "REAL"]);
}

#[test]
fn scenario_default_types_round_trip() {
    let (headers, records) = scenario_rows();
    let mut conn = Connection::open_in_memory().unwrap();
    let r = load_into(&mut conn, "data", &headers, &records, false);
    assert_eq!(r.unwrap_or(usize::MAX), 3);
    assert_eq!(declared_types(&conn, "data"), vec!["TEXT", "TEXT", "TEXT"]);
    // TEXT affinity keeps every cell's lexical form, the empty cell included
    assert_eq!(read_back(&conn, "data"), records);
}

#[test]
fn loading_twice_fails_on_existing_table() {
    let (headers, records) = scenario_rows();
    let mut conn = Connection::open_in_memory().unwrap();
    assert!(load_into(&mut conn, "data", &headers, &records, false).is_ok());
    let again = load_into(&mut conn, "data", &headers, &records, false);
    match again {
        Ok(_) => panic!("a second load onto the same table must fail"),
        Err(e) => {
            assert_eq!(e.stage, LoadStage::CreateTable);
            assert_eq!(e.rows_done, 0);
        }
    }
    // the first load's rows are untouched
    assert_eq!(read_back(&conn, "data").len(), 3);
}

#[test]
fn failed_load_leaves_no_rows() {
    // a one-column table, then rows with two cells: every insert is rejected,
    // and the transaction is never committed
    let headers = cells(&["a"]);
    let records = vec![cells(&["1", "2"])];
    let mut conn = Connection::open_in_memory().unwrap();
    let r = load_into(&mut conn, "data", &headers, &records, false);
    match r {
        Ok(_) => panic!("a row wider than the table must fail"),
        Err(e) => {
            assert_eq!(e.stage, LoadStage::Insert);
            assert_eq!(e.rows_done, 0);
        }
    }
    assert_eq!(read_back(&conn, "data").len(), 0);
}

#[test]
fn short_row_aborts_the_load() {
    // a two-column table, then a row with one cell: the binding mechanism
    // rejects the missing trailing position
    let headers = cells(&["a", "b"]);
    let records = vec![cells(&["1", "2"]), cells(&["3"])];
    let mut conn = Connection::open_in_memory().unwrap();
    let r = load_into(&mut conn, "data", &headers, &records, false);
    match r {
        Ok(_) => panic!("a row narrower than the table must fail"),
        Err(e) => {
            assert_eq!(e.stage, LoadStage::Insert);
            assert_eq!(e.rows_done, 1);
        }
    }
    // nothing was committed
    assert_eq!(read_back(&conn, "data").len(), 0);
}

#[test]
fn progress_is_due_twice_in_2500_rows() {
    let due: Vec<usize> = (1..=2500usize).filter(|&i| progress_due(i)).collect();
    assert_eq!(due, vec![1000, 2000]);
}

#[test]
fn large_load_reports_full_count() {
    let headers = cells(&["n"]);
    let records: Vec<Vec<String>> = (0..2500usize).map(|i| vec![i.to_string()]).collect();
    let mut conn = Connection::open_in_memory().unwrap();
    let r = load_into(&mut conn, "data", &headers, &records, true);
    assert_eq!(r.unwrap_or(usize::MAX), 2500);
    assert_eq!(declared_types(&conn, "data"), vec!["INTEGER"]);
    let count: i64 = conn
        .query_row("SELECT COUNT(*) FROM data", [], |row| row.get(0))
        .unwrap();
    assert_eq!(count, 2500);
}
