[package]
name = "charradissa"
version = "0.1.0"
edition = "2021"
publish = false

[dependencies]
chrono = { version = "0.4", features = ["serde"] }
serde = { version = "1", features = ["derive"] }
serde_json = "1"
base64 = "0.22"
pulldown-cmark = "0.12"
uuid = { version = "1", features = ["v4"] }
anyhow = "1"
async-trait = "0.1"
axum = "0.7"
futures = "0.3"
reqwest = { version = "0.12", default-features = false, features = ["json"] }
thiserror = "1"
tokio = { version = "1", features = ["full"] }
toml = "0.8"
tracing = "0.1"
tracing-subscriber = "0.3"
