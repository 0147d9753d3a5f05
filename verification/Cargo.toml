[package]
name = "rusk_socks5"
version = "0.1.0"
edition = "2021"
publish = false

[dependencies]
ipnet = "*"
moka = { version = "*", features = ["sync"] }
tokio = { version = "*", features = ["full"] }
clap = { version = "*", features = ["derive"] }
env_logger = "*"
log = "*"
thiserror = "*"
