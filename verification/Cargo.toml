[package]
name = "pegainfer_kernels"
version = "0.1.0"
edition = "2021"
publish = false

[dependencies]
anyhow = "1"
half = "2"
serde = { version = "1", features = ["derive"] }
cudarc = { version = "*", default-features = false, features = ["std", "driver", "dynamic-loading", "cuda-12080", "f16"] }
