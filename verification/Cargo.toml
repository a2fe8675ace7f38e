[package]
name = "baker"
version = "0.1.0"
edition = "2021"
publish = false

[dependencies]
anyhow = "=1.0.104"
clap = { version = "=4.6.7", features = ["derive"] }
dialoguer = "=0.12.0"
env_logger = "=0.11.11"
git2 = { version = "=0.21.0", default-features = false }
globset = "=0.4.20"
indexmap = "=2.14.2"
log = "=0.4.34"
minijinja = "=2.24.0"
serde = { version = "=1.0.229", features = ["derive"] }
serde_json = { version = "=1.0.154", features = ["preserve_order"] }
serde_yaml = "=0.9.34"
thiserror = "=2.0.21"
url = "=2.5.8"
