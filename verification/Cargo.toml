[package]
name = "sidecar_supervisor"
version = "0.1.0"
edition = "2021"
publish = false

[dependencies]
reqwest = { version = "0.12", default-features = false }
tokio = { version = "1", features = ["time"] }
