[package]
name = "oag"
version = "0.1.0"
edition = "2021"
publish = false

[dependencies]
heck = "=0.5.0"
minijinja = "=2.24.0"
serde = { version = "=1.0.229", features = ["derive"] }
serde_json = "=1.0.154"
serde_yaml_ng = "=0.10.0"
toml = "=0.8.23"
indexmap = { version = "=2.14.2", features = ["serde"] }
anyhow = "=1.0.104"
clap = { version = "=4.6.7", features = ["derive"] }
clap_complete = "=4.6.11"
crossterm = "=0.28.1"
env_logger = "=0.11.11"
ureq = "=3.5.1"
agentspec-update = "*"
