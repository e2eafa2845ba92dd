[package]
name = "vibevoicecli"
version = "0.1.0"
edition = "2021"
publish = false

[dependencies]
hound = "3"
anyhow = "1"
clap = { version = "4", features = ["derive"] }
console = "*"
futures-util = "0.3"
indicatif = "*"
reqwest = { version = "0.12", default-features = false, features = ["stream", "rustls-tls"] }
serde = { version = "1", features = ["derive"] }
serde_json = "1"
tokio = { version = "1", features = ["full"] }
tracing-subscriber = "0.3"
