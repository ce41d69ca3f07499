[package]
name = "headless_chrome"
version = "0.1.0"
edition = "2021"
publish = false

[dependencies]
base64 = "=0.13.1"
rand = "=0.8.8"
serde_json = "=1.0.151"
nix = { version = "=0.29.0", features = ["fs", "signal", "process"] }
tempfile = "=3.27.0"
