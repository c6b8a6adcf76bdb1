[package]
name = "grammers_media"
version = "0.1.0"
edition = "2021"
publish = false

[dependencies]
grammers-tl-types = "*"
tokio = { version = "1", features = ["fs", "io-util", "rt"] }
