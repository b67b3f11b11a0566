[package]
name = "livebox"
version = "0.1.0"
edition = "2021"
publish = false

[dependencies]
anyhow = "1"
clap = { version = "4", features = ["derive", "env"] }
env_logger = "0.11"
log = "0.4"
reqwest = { version = "0.12", features = ["cookies"] }
serde_json = "1"
serde_json_path = "*"
tokio = { version = "1", features = ["macros", "rt"] }
