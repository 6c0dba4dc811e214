[package]
name = "systembolaget"
version = "0.1.0"
edition = "2021"
publish = false

[dependencies]
askama_axum = "=0.4.0"
axum = "=0.8.9"
color-eyre = "=0.6.5"
inquire = "=0.9.4"
regex = "=1.13.1"
reqwest = { version = "=0.12.28", default-features = false, features = ["rustls-tls"] }
serde = { version = "=1.0.229", features = ["derive"] }
serde_json = "=1.0.154"
strum = "=0.28.0"
stylic = "0.2"
thiserror = "=2.0.21"
tokio = { version = "=1.54.1", features = ["macros", "rt-multi-thread", "net"] }
tracing-subscriber = "=0.3.23"
