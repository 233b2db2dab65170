[package]
name = "mc-server-init"
version = "0.1.0"
edition = "2021"
publish = false

[dependencies]
clap = { version = "4", features = ["derive"] }
nix = { version = "0.30", features = ["poll", "process", "signal", "term"] }
