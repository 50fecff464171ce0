[package]
name = "fashion_auth"
version = "0.1.0"
edition = "2021"
publish = false

[dependencies]
hex = "0.4"
stellar-strkey = "*"
anyhow = "1"
axum = "0.7"
dotenv = "0.15"
ed25519-dalek = "1"
reqwest = { version = "0.12", default-features = false, features = ["json"] }
serde = { version = "1", features = ["derive"] }
serde_json = "1"
tokio = { version = "1", features = ["rt-multi-thread", "macros", "net"] }
tower-http = { version = "0.5", features = ["cors"] }
tracing = "0.1"
tracing-subscriber = { version = "0.3", features = ["env-filter"] }
utoipa = { version = "4", features = ["axum_extras"] }
uuid = { version = "1", features = ["v4"] }
