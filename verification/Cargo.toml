[package]
name = "async_job"
version = "0.1.0"
edition = "2021"
publish = false

[dependencies]
async-trait = "*"
chrono = "*"
cron = "*"
tokio = { version = "*", features = ["rt-multi-thread", "sync", "time"] }
