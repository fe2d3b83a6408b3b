[package]
name = "wareki_core"
version = "0.1.0"
edition = "2021"
publish = false

[dependencies]
chrono = { version = "0.4", default-features = false, features = ["std"] }
napi = "2"
napi-derive = "2"
pyo3 = "0.20"
