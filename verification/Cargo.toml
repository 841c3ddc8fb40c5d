[package]
name = "hot_crate"
version = "0.1.0"
edition = "2021"
publish = false

[dependencies]
camino = "*"
cargo_metadata = "*"
env_logger = "*"
libloading = "*"
log = "*"
