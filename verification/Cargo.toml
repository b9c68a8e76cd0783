[package]
name = "athena"
version = "0.1.0"
edition = "2021"
publish = false

[dependencies]
tiktoken-rs = "=0.6.0"
serde = { version = "=1.0.229", features = ["derive"] }
serde_json = "=1.0.154"
serde_yaml = "=0.9.34"
uuid = { version = "=1.29.0", features = ["v4", "serde"] }
anyhow = "=1.0.104"
async-trait = "=0.1.92"
tokio = { version = "=1.54.1", features = ["full"] }
futures = "=0.3.34"
tracing = "=0.1.44"
axum = { version = "=0.7.9", features = ["ws"] }
tower-http = { version = "=0.5.2", features = ["fs", "cors"] }
reqwest = { version = "=0.12.28", default-features = false, features = ["json", "rustls-tls"] }
rusqlite = { version = "=0.31.0", features = ["bundled"] }
base64 = "=0.22.1"
cliclack = "=0.3.8"
dotenvy = "=0.15.7"
open = "=5.4.5"
tokio-tungstenite = "=0.21.0"
tokio-cron-scheduler = "=0.10.2"
inventory = "=0.3.25"
teloxide = { version = "=0.12.2", default-features = false, features = ["macros", "rustls", "ctrlc_handler"] }
takecell = "=0.1.1"
dptree = "=0.3.0"
serenity = { version = "=0.12.5", default-features = false, features = ["client", "gateway", "rustls_backend", "model"] }
