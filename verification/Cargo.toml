[package]
name = "fuzzy_driver"
version = "0.1.0"
edition = "2021"
publish = false

[dependencies]
scc = "*"
rusqlite = { version = "*", features = ["bundled"] }
serde = { version = "*", features = ["derive"] }
serde_json = "*"
tokio = { version = "*", features = ["rt", "time", "macros"] }
arbitrary = "*"
scupt-util = "*"
