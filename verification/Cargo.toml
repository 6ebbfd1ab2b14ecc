[package]
name = "flowly_flv"
version = "0.1.0"
edition = "2021"
publish = false

[dependencies]
async-stream = "=0.3.6"
bytes = "=1.12.1"
flowly = "=0.2.8"
futures = "=0.3.34"
log = "=0.4.34"
thiserror = "=2.0.21"
tokio = { version = "=1.54.1", features = ["fs", "io-util", "macros", "rt"] }
tokio-util = { version = "=0.7.20", features = ["io"] }
