[package]
name = "vsock_latency"
version = "0.1.0"
edition = "2021"
publish = false

[dependencies]
hdrhist = "=0.5.0"
nix = { version = "=0.31.3", features = ["socket"] }
