[package]
name = "typkg"
version = "0.1.0"
edition = "2021"
publish = false

[dependencies]
anyhow = "*"
clap = { version = "*", features = ["derive"] }
dirs-next = "*"
globset = "*"
semver = "*"
serde = { version = "*", features = ["derive"] }
tempfile = "*"
toml = "*"
url = "*"
walkdir = "*"
