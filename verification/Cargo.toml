[package]
name = "vibe_cherry"
version = "0.1.0"
edition = "2021"
publish = false

[dependencies]
serde_json = "1"
tokio = { version = "1", features = ["process", "io-util", "rt"] }
