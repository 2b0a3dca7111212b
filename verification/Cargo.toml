[package]
name = "battery_notify"
version = "0.1.0"
edition = "2021"
publish = false

[dependencies]
regex = "*"
chrono = "*"
log = "*"
fern = "*"
env_logger = "*"
clap = { version = "*", features = ["derive"] }
notify = "*"
notify-rust = "*"
rodio = "*"
tokio = { version = "*", features = ["rt", "macros", "sync"] }
serde = { version = "*", features = ["derive"] }
serde_json = "*"
