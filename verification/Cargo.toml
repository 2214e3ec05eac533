[package]
name = "vme_fs"
version = "0.1.0"
edition = "2021"
publish = false

[dependencies]
nix = { version = "=0.31.3", default-features = false }
serde = { version = "=1.0.229", features = ["derive"] }
futures = "=0.3.34"
log = "0.4"
