[package]
name = "banqi-engine"
version = "0.1.0"
edition = "2021"
publish = false

[dependencies]
anyhow = "=1.0.104"
ort = { version = "=2.0.0-rc.12", default-features = false, features = ["std", "load-dynamic", "ndarray", "api-24"] }
rand = "=0.8.8"
tch = { version = "=0.26.0", features = ["doc-only"] }
