[package]
name = "sql_ddl"
version = "0.1.0"
edition = "2021"

[dev-dependencies]
rusqlite = { version = "*", features = ["bundled"] }
