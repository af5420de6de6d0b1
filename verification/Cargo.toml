[package]
name = "lemonade"
version = "0.1.0"
edition = "2021"
publish = false

[dependencies]
dashmap = "*"
arc-swap = "*"
serde = { version = "*", features = ["derive"] }
serde_json = "*"
serde_yaml = "*"
toml = "*"
thiserror = "*"
tokio = { version = "*", features = ["rt-multi-thread", "macros", "net", "time", "sync", "signal", "io-util"] }
dotenvy = "*"
tracing = "*"
tracing-subscriber = { version = "*", features = ["env-filter"] }
async-trait = "*"
notify = "*"
axum = "*"
actix-web = { version = "*", default-features = false, features = ["macros"] }
