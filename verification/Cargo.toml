[package]
name = "cherry_usage"
version = "0.1.0"
edition = "2021"
publish = false

[dependencies]
rusqlite = { version = "0.31", features = ["bundled"] }
rust_decimal = "1.33"

[dev-dependencies]
tempfile = "3"
