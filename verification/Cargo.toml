[package]
name = "polkadot_rewards"
version = "0.1.0"
edition = "2021"
publish = false

[dependencies]
anyhow = "1"
argh = "0.1"
chrono = "0.4"
env_logger = "*"
indicatif = "*"
log = "0.4"
