[package]
name = "claude_rust"
version = "0.1.0"
edition = "2021"
publish = false

[dependencies]
md5 = "=0.8.1"
uuid = { version = "=1.29.0", features = ["v4", "serde"] }
chrono = { version = "=0.4.45", features = ["serde"] }
serde = { version = "=1.0.229", features = ["derive"] }
serde_json = "=1.0.154"
serde_yaml = "=0.9.34"
toml = "=1.1.8"
tokio = { version = "=1.54.1", features = ["sync", "rt", "rt-multi-thread", "macros", "fs", "process", "time"] }
dirs = "=7.0.0"
image = { version = "0.25", default-features = false, features = ["png", "jpeg", "gif", "webp"] }
base64 = "0.22"
clap = { version = "4", features = ["derive"] }
num_cpus = "1"
