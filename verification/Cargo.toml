[package]
name = "taurhaus_daemon"
version = "0.1.0"
edition = "2021"
publish = false

[dependencies]
serde = { version = "=1.0.229", features = ["derive"] }
serde_json = "=1.0.154"
uuid = { version = "=1.29.0", features = ["v4"] }
chrono = "=0.4.45"
dirs = "=7.0.0"
rand = "=0.8.8"
hex = "=0.4.3"
fs2 = "0.4"
