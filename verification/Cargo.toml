[package]
name = "sqlite_pool"
version = "0.1.0"
edition = "2021"
publish = false

[dependencies]
deadpool = { version = "*", features = ["managed", "rt_tokio_1"] }
deadpool-sync = { version = "*" }
rusqlite = { version = "*", features = ["bundled"] }
