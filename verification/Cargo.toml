[package]
name = "betterjeb"
version = "0.1.0"
edition = "2021"
publish = false

[dependencies]
krpc-client = "*"
tokio = { version = "*", features = ["rt", "sync", "time", "macros"] }
