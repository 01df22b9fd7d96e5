[package]
name = "csv_to_sqlite"
version = "0.1.0"
edition = "2021"
publish = false

[dependencies]
rusqlite = { version = "*", features = ["bundled"] }
anyhow = "*"
clap = { version = "*", features = ["derive"] }
csv = "*"
