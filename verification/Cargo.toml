[package]
name = "deploy_rs"
version = "0.1.0"
edition = "2021"
publish = false

[dependencies]
whoami = "*"
yn = "*"
tokio = { version = "*", features = ["full"] }
clap = { version = "*", features = ["derive"] }
serde = { version = "*", features = ["derive"] }
serde_json = "*"
notify = "*"
signal-hook = "*"
log = "*"
dirs = "*"
