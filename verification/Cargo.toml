[package]
name = "worker_runtime"
version = "0.1.0"
edition = "2021"
publish = false

[dependencies]
chrono = { version = "0.4", default-features = false }
v8 = "0.74"
