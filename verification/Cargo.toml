[package]
name = "signal_bridge"
version = "0.1.0"
edition = "2021"
publish = false

[dependencies]
nix = { version = "0.29", default-features = false, features = ["fs", "signal"] }
