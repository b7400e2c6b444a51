[package]
name = "ytdlp_output_rs"
version = "0.1.0"
edition = "2021"
publish = false

[dependencies]
anyhow = "1"
config = "0.14"
env_logger = "0.11"
log = "0.4"
regex-syntax = "0.8"
serde = { version = "1", features = ["derive"] }
serde_json = "1"
serenity = { version = "0.12", default-features = false, features = ["client", "gateway", "model", "rustls_backend"] }
tokio = { version = "1", features = ["macros", "rt-multi-thread", "process"] }

[dev-dependencies]
regex = "1"
