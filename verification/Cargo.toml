[package]
name = "watchdog"
version = "0.1.0"
edition = "2021"
publish = false

[dependencies]
nix = { version = "*", features = ["signal", "fs"] }
procfs = "*"
serde = { version = "*", features = ["derive"] }
serde_json = "*"
signal-hook = "*"
