[package]
name = "run_telemetry"
version = "0.1.0"
edition = "2021"
publish = false

[dependencies]
rand = "0.8"
tokio = { version = "1", default-features = false, features = ["rt-multi-thread", "sync", "macros", "time"] }
tokio-stream = "0.1"
