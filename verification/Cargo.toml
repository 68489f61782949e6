[package]
name = "cass_ffi"
version = "0.1.0"
edition = "2021"
publish = false

[dependencies]
parking_lot = "*"
tokio = { version = "*", features = ["rt", "rt-multi-thread", "sync"] }
tracing = "*"
uniffi = { version = "*", default-features = false, features = ["tokio"] }

[dev-dependencies]
tempfile = "*"
