[package]
name = "light_control"
version = "0.1.0"
edition = "2021"
publish = false

[dependencies]
chrono = "0.4"
chrono-tz = "*"
dotenv = "0.15"
serenity = "0.12"
tokio = { version = "1", features = ["macros", "rt-multi-thread", "sync"] }
tokio-cron-scheduler = "*"
tracing = "0.1"
tracing-subscriber = "0.3"
