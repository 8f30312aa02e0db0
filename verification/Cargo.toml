[package]
name = "openapi_validator"
version = "0.1.0"
edition = "2021"
publish = false

[dependencies]
anyhow = "1"
atty = "0.2"
clap = { version = "4", features = ["derive"] }
include_dir = "0.7"
indicatif = "0.17"
libc = "0.2"
owo-colors = "4"
serde = { version = "1", features = ["derive"] }
serde_yaml = "0.9"
walkdir = "2"
