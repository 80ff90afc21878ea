[package]
name = "oidc_shim"
version = "0.1.0"
edition = "2021"
publish = false

[dependencies]
serde_json = "1"
serde = { version = "1", features = ["derive"] }
axum = "0.7"
axum-extra = { version = "0.9", features = ["typed-header"] }
headers = "0.4"
reqwest = { version = "0.12", default-features = false }
tokio = { version = "1", features = ["full"] }
