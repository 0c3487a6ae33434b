[package]
name = "alas_launcher"
version = "0.1.0"
edition = "2021"
publish = false

[dependencies]
anyhow = "1"
base64 = "0.22"
chrono = "0.4"
ctrlc = "3"
rand = "0.9"
reqwest = { version = "0.12", default-features = false, features = ["blocking"] }
rust-i18n = "3"
serde = { version = "1", features = ["derive"] }
serde_json = "1"
tracing = "0.1"
tracing-appender = "0.2"
tracing-subscriber = "0.3"
url = "2"

[dev-dependencies]
tempfile = "3"
