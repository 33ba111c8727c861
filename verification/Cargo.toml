[package]
name = "rapfiles"
version = "0.1.0"
edition = "2021"
publish = false

[dependencies]
tokio = { version = "*", features = ["fs", "io-util", "sync", "rt-multi-thread"] }
