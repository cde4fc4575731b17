[package]
name = "trace_sinks"
version = "0.1.0"
edition = "2021"
publish = false

[dependencies]
ethereum-types = "*"
rustc-serialize = "*"
lapin = "*"
futures = "*"
tokio = { version = "*", default-features = false, features = ["rt", "net"] }
