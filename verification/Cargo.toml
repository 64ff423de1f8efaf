[package]
name = "acme_propagation"
version = "0.1.0"
edition = "2021"
publish = false

[dependencies]
hickory-resolver = "0.25"
futures-util = "0.3"
tokio = { version = "1", features = ["rt", "time", "net"] }
tracing = "0.1"
