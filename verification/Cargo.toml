[package]
name = "mistralrs_gateway"
version = "0.1.0"
edition = "2021"
publish = false

[dependencies]
candle-core = "*"
pyo3 = "*"

[dev-dependencies]
serde_json = "*"
