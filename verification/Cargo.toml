[package]
name = "mleml"
version = "0.1.0"
edition = "2021"
publish = false

[dependencies]
serde_json = "=1.0.151"
dasp = { version = "=0.11.0", features = ["all"] }
