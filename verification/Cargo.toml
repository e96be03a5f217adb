[package]
name = "lunaris"
version = "0.1.0"
edition = "2021"
publish = false

[dependencies]
crossbeam-queue = "*"
parking_lot = "*"
tokio = { version = "*", features = ["rt-multi-thread"] }
futures = { version = "*", features = ["executor"] }
signal-hook = "*"
tracing = "*"
tracing-subscriber = { version = "*", features = ["env-filter"] }
colored = "*"
native-dialog = "*"
