[package]
name = "funless_worker"
version = "0.1.0"
edition = "2021"
rust-version = "1.95"
publish = false

[dependencies]
bollard = "=0.21.1"
wasmtime = "=48.0.5"
wasmtime-wasi = "=48.0.5"
tokio = { version = "=1.53.2", features = ["rt", "net", "time"] }
futures-util = "=0.3.34"
once_cell = "=1.21.4"
