[package]
name = "spc_core"
version = "0.1.0"
edition = "2021"
publish = false

[dependencies]
camino = "*"
clap = { version = "*", features = ["derive"] }
csv = "*"
env_logger = "*"
fs-err = "*"
log = "*"
miette = "*"
serde = { version = "*", features = ["derive"] }
