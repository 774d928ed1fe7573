[package]
name = "amibussy"
version = "0.1.0"
edition = "2021"
publish = false

[dependencies]
serde_json = "=1.0.151"
serde = { version = "=1.0.229", features = ["derive"] }
anyhow = "=1.0.104"
axum = "=0.6.20"
hyper = "=0.14.32"
ngrok = { version = "=0.13.1", features = ["hyper"] }
reqwest = { version = "=0.11.27", default-features = false, features = ["json"] }
config = "=0.13.4"
shellexpand = "=3.1.2"
tokio = { version = "=1.53.2", features = ["macros", "rt-multi-thread", "signal", "sync", "time"] }
tracing = "=0.1.44"
tracing-subscriber = "=0.3.23"
