[package]
name = "schack_peer"
version = "0.1.0"
edition = "2021"
publish = false

[dependencies]
tiny_http = "*"
reqwest = { version = "=0.12.28", default-features = false, features = ["blocking"] }
