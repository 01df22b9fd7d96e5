//! Loads delimited tabular text into a single table of an embedded SQLite
//! database: infers each column's storage type from its observed values
//! (or defaults every column to TEXT), derives the schema, and bulk-inserts
//! all rows inside one transaction.

pub mod cells;
pub mod db;
pub mod infer;
pub mod load;
pub mod schema;
pub mod types;
