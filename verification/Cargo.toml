[package]
name = "argala"
version = "0.1.0"
edition = "2021"
publish = false

[dependencies]
regex = "1"
pyo3 = "0.22"
serde = { version = "1", features = ["derive"] }
toml = "0.8"
