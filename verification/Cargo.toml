[package]
name = "ultron"
version = "0.1.0"
edition = "2021"
publish = false

[dependencies]
tyche = "=0.3.1"
rand = "=0.7.3"
toml = "=1.1.8"
time = "=0.3.55"
serde = { version = "=1.0.229", features = ["derive"] }
serde_json = "=1.0.154"
tokio = { version = "=1.54.1", features = ["full"] }
serenity = "=0.12.5"
axum = "=0.8.9"
clap = { version = "=4.6.7", features = ["derive"] }
tracing = "=0.1.44"
tracing-subscriber = { version = "=0.3.23", features = ["json", "env-filter"] }
anyhow = "=1.0.104"
thiserror = "=2.0.21"
ollama-rs = "=0.3.6"
chrono = "=0.4.45"
futures = "=0.3.34"
reqwest = { version = "=0.12.28", default-features = false }
