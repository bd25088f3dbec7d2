[package]
name = "uring_read"
version = "0.1.0"
edition = "2021"
publish = false

[dependencies]
io-uring = "*"
