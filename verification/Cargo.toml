[package]
name = "hyperlight-nanvix"
version = "0.1.0"
edition = "2021"
publish = false

[dependencies]
anyhow = "=1.0.104"
napi = { version = "=2.16.17", features = ["async", "tokio_rt"] }
napi-derive = "=2.16.13"
pyo3 = { version = "=0.20.3" }
pyo3-asyncio = { version = "=0.20.0", features = ["tokio-runtime"] }
tokio = { version = "=1.54.1", features = ["fs", "macros", "rt", "rt-multi-thread", "sync"] }
