[package]
name = "birthday_reminder"
version = "0.2.0"
edition = "2021"
rust-version = "1.95"
publish = false

[dependencies]
async-tempfile = "=0.8.0"
chrono = "=0.4.45"
clap = { version = "=4.6.7", features = ["derive"] }
log = "=0.4.34"
pretty_env_logger = "=0.5.0"
regex = "=1.13.1"
serde = { version = "=1.0.229", features = ["derive"] }
serde_json = "=1.0.154"
takecell = "<0.1.2"
teloxide = { version = "=0.12.2", features = ["macros"] }
tokio = { version = "=1.54.1", features = ["rt", "macros", "fs", "io-util", "sync", "time"] }
