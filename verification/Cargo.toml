[package]
name = "session_engine"
version = "0.1.0"
edition = "2021"
publish = false

[dependencies]
chrono = { version = "=0.4.45", features = ["serde"] }
rust_decimal = { version = "=1.43.0", features = ["serde"] }
schemars = { version = "=1.2.3", features = ["chrono04"] }
serde = { version = "=1.0.229", features = ["derive"] }
serde_json = "=1.0.154"
thiserror = "=2.0.21"
tracing = "=0.1.44"
