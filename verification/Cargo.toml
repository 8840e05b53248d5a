[package]
name = "wakenrun"
version = "0.1.0"
edition = "2021"
publish = false

[dependencies]
subprocess = "*"
wol = "*"
dirs = "*"
spin_sleep = "*"
clap = { version = "*", features = ["derive"] }
serde = { version = "*", features = ["derive"] }
serde_yaml = "*"
anyhow = "*"
log = "*"
simple_logger = "*"
