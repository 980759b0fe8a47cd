[package]
name = "esteria_sms"
version = "0.1.0"
edition = "2021"
publish = false

[dependencies]
bitflags = "2"
chrono = "0.4"
log = "0.4"
pyo3 = "*"
pyo3-async-runtimes = { version = "*", features = ["tokio-runtime"] }
reqwest = "0.12"
thiserror = "1"
