[package]
name = "pedestal-rs"
version = "0.1.0"
edition = "2021"
publish = false

[dependencies]
futures = "*"
nix = { version = "*", features = ["fs", "process", "signal"] }
opencv = { version = "*", default-features = false }
tokio = { version = "*", features = ["fs", "io-util", "process", "rt", "rt-multi-thread"] }
