[package]
name = "homespace"
version = "0.1.0"
edition = "2021"
publish = false

[dependencies]
anyhow = "1"
base64 = "*"
clap = { version = "4", features = ["derive"] }
dialoguer = "*"
rand = "*"
serde = { version = "1", features = ["derive"] }
serde_json = "1"
serde_yaml = "*"
sha1 = "*"
toml = "*"
tracing = "0.1"
tracing-subscriber = "0.3"
