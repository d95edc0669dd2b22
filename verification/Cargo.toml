[package]
name = "gotd_bot"
version = "0.1.0"
edition = "2021"
publish = false

[dependencies]
chrono = "=0.4.45"
cron = "=0.12.1"
serenity = { version = "=0.10.10", features = ["unstable_discord_api"] }
diesel = { version = "2", features = ["mysql", "r2d2"] }
dotenv = "0.15"
tokio = { version = "1", features = ["macros", "rt-multi-thread", "time", "sync"] }
reqwest = { version = "0.11", default-features = false, features = ["json", "rustls-tls"] }
serde = { version = "1", features = ["derive"] }
serde_json = "1"
rand = "0.8"
sys-info = "0.9"
tracing = "0.1"
tracing-subscriber = "0.3"
