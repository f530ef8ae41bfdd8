[package]
name = "corerun"
version = "0.1.0"
edition = "2021"
publish = false

[dependencies]
ipnetwork = { version = "*", default-features = false }
uuid = { version = "*", features = ["v4"] }
nix = { version = "*", features = ["sched", "mount", "term", "signal", "process", "fs", "hostname", "user"] }
clap = "*"
log = "*"
env_logger = "*"
