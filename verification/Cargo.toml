[package]
name = "tasks_api"
version = "0.1.0"
edition = "2021"
publish = false

[dependencies]
diesel = { version = "2", features = ["sqlite", "r2d2", "returning_clauses_for_sqlite_3_35"] }
rocket = { version = "0.5", features = ["json"] }
