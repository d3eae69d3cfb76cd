[package]
name = "baker"
version = "0.1.0"
edition = "2021"
publish = false

[dependencies]
globset = "0.4"
dirs = "*"
clap = { version = "4", features = ["derive"] }
serde = { version = "1", features = ["derive"] }
serde_json = "1"
serde_yaml = "0.9"
log = "0.4"
env_logger = "*"
walkdir = "2"
tempfile = "3"
flate2 = "1"
tar = "0.4"
minijinja = "2"
cruet = "*"
indexmap = { version = "2", features = ["serde"] }
dialoguer = "0.11"
chrono = { version = "0.4", default-features = false, features = ["clock"] }
jsonschema = { version = "*", default-features = false }
anyhow = "1"
thiserror = "*"
tokio = { version = "1", features = ["rt-multi-thread", "macros"] }
async-trait = "*"
rust-mcp-sdk = "*"
