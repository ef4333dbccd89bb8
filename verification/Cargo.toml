[package]
name = "aios"
version = "0.1.0"
edition = "2021"
publish = false

[dependencies]
reqwest = { version = "=0.13.5", default-features = false, features = ["blocking"] }
serde_json = "=1.0.151"
tokio = { version = "=1.53.2", features = ["rt", "rt-multi-thread", "fs", "process", "net", "io-util"] }

[dev-dependencies]
axum = "=0.8.9"
