[package]
name = "baselink"
version = "0.1.0"
edition = "2021"
publish = false

[dependencies]
bytes = "1"
log = "0.4"
tokio = { version = "1", features = ["rt", "sync", "io-util", "signal", "macros"] }
tokio-serial = "5"
tokio-util = { version = "0.7", features = ["codec"] }
