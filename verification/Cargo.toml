[package]
name = "qiskit_runtime_client"
version = "0.1.0"
edition = "2021"
publish = false

[dependencies]
base64-simd = "0.8"
flate2 = "1"
serde = { version = "1", features = ["derive"] }
serde_json = "1"
tokio = { version = "1", features = ["rt", "net", "time"] }
reqwest = { version = "0.12", default-features = false, features = ["json"] }

[dev-dependencies]
binrw = "0.15"
