[package]
name = "qq_bot"
version = "0.1.0"
edition = "2021"
publish = false

[dependencies]
anyhow = "=1.0.104"
async-trait = "=0.1.92"
jsonwebtoken = "=9.3.1"
kovi = "=0.12.7"
lapin = "=2.5.5"
once_cell = "=1.21.4"
reqwest = { version = "=0.12.28", default-features = false, features = ["json", "rustls-tls"] }
serde = { version = "=1.0.229", features = ["derive"] }
serde_json = "=1.0.154"
sqlx = { version = "=0.8.6", default-features = false, features = ["runtime-tokio", "sqlite", "chrono"] }
tokio = { version = "=1.54.1", features = ["full"] }
toml = "=0.9.12"
tracing = "=0.1.44"
