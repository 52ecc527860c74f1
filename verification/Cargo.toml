[package]
name = "agent_core"
version = "0.1.0"
edition = "2021"
publish = false

[dependencies]
wildmatch = "2"
sha1 = "0.10"
hex = "0.4"
shlex = "1"
chrono = { version = "0.4", features = ["serde"] }
uuid = { version = "1", features = ["v4", "serde"] }
serde = { version = "1", features = ["derive"] }
serde_json = "1"
serde_yaml = "0.9"
toml = "0.8"
anyhow = "1"
clap = { version = "4", features = ["derive"] }
tokio = { version = "1", features = ["fs", "io-util", "rt", "macros", "sync", "time"] }
walkdir = "2"
dirs = "5"
thiserror = "1"
tracing = "0.1"
async-channel = "2"
