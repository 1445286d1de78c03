[package]
name = "kbkdf"
version = "0.1.0"
edition = "2021"
publish = false

[dependencies]
digest = { version = "*", features = ["mac"] }
