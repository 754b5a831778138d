[package]
name = "botonio_botsci"
version = "0.1.0"
edition = "2021"
publish = false

[dependencies]
anyhow = "1"
arc-swap = "1"
async-trait = "0.1"
axum = "0.8"
chrono = "0.4"
dotenvy = "0.15"
getrandom = { version = "0.3", features = ["std"] }
hex = "0.4"
pasetors = "0.7"
poise = "0.6"
sd-notify = "0.4"
secrecy = "0.10"
serde = { version = "1", features = ["derive"] }
serde_json = "1"
serenity = "0.12"
sha2 = "0.10"
subtle = "2"
thiserror = "2"
tokio = { version = "1", features = ["full"] }
tracing = "0.1"
tracing-subscriber = { version = "0.3", features = ["env-filter"] }
