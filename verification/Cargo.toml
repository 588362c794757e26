[package]
name = "peerctl"
version = "0.1.0"
edition = "2021"
publish = false

[dependencies]
rand = "*"
clap = "*"
env_logger = "*"
log = "*"
notify = "*"
anyhow = "*"
