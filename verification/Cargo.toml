[package]
name = "avalanche"
version = "0.1.0"
edition = "2021"
publish = false

[dependencies]
http = "1"
sha2 = "0.10"
hex = "0.4"
flate2 = "1"
tokio = { version = "1", features = ["full"] }
