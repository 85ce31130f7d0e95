[package]
name = "bounce"
version = "0.1.0"
edition = "2021"
publish = false

[dependencies]
bls-signatures-rs = "*"
rand = "0.8"
tokio = { version = "1", features = ["macros", "rt", "rt-multi-thread", "sync", "time"] }
