[package]
name = "bb"
version = "0.1.0"
edition = "2021"
publish = false

[dependencies]
anyhow = "*"
uuid = { version = "*", features = ["v4"] }
