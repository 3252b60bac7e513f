[package]
name = "bipper"
version = "0.1.0"
edition = "2021"
publish = false

[dependencies]
anyhow = "1"
axum = "0.8"
bip39 = "2"
futures-util = "0.3"
hex = "0.4"
rand = "0.8"
ring = "0.17"
serde = { version = "1", features = ["derive"] }
sqlx = { version = "0.8", default-features = false, features = ["derive"] }
tokio = { version = "1", features = ["full"] }
tokio-rusqlite = { version = "*", features = ["bundled"] }
tracing = "0.1"
tracing-subscriber = "0.3"
