[package]
name = "stablediffusion"
version = "0.1.0"
edition = "2021"
publish = false

[dependencies]
burn-core = { version = "=0.20.1", default-features = false, features = ["std"] }
burn-store = { version = "=0.20.1", default-features = false, features = ["std", "safetensors", "burnpack"] }
image = { version = "=0.25.10", default-features = false, features = ["png"] }
regex = "=1.13.1"
