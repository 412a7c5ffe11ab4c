[package]
name = "sandcrust"
version = "0.1.0"
edition = "2021"
publish = false

[dependencies]
bincode = "0.8"
serde = { version = "1", features = ["derive"] }
nix = "0.26"
lazy_static = "1"
