[package]
name = "toupcam"
version = "0.1.0"
edition = "2021"
publish = false

[dependencies]
rust-crypto = "0.2"
rusb = { version = "0.9", features = ["vendored"] }
pcap = "*"
