[package]
name = "sanctum-token-ratio"
version = "0.1.0"
edition = "2021"
publish = false

[dev-dependencies]
borsh = "1"
