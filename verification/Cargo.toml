[package]
name = "zsh_mgr_rs"
version = "0.1.0"
edition = "2021"
publish = false

[dependencies]
git2 = { version = "=0.21.0", default-features = false, features = ["cred"] }
rayon = "=1.12.0"
serde = { version = "*", features = ["derive"] }
serde_json = "*"
clap = { version = "*", features = ["derive"] }
colored = "*"
anyhow = "*"
log = "*"
env_logger = "*"
dirs = "*"
shellexpand = "*"
chrono = "*"
comfy-table = "*"
