[package]
name = "minidbg"
version = "0.1.0"
edition = "2021"
publish = false

[dependencies]
anyhow = "*"
nix = { version = "*", features = ["process", "ptrace", "signal"] }
