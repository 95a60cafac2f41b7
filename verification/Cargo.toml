[package]
name = "tower_governor"
version = "0.1.0"
edition = "2021"
publish = false

[dependencies]
http = "1"
governor = "0.6"
hyper = "1"
tower = "0.5"
pin-project = "1"
tracing = "0.1"
jsonrpsee = { version = "0.24", features = ["http-client"] }
