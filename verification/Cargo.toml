[package]
name = "rustream"
version = "0.1.0"
edition = "2021"
publish = false

[dependencies]
pyo3 = "0.28"
serde_json = "1"
toml = "0.9"
