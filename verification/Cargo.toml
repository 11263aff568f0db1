[package]
name = "uecp_rs"
version = "0.1.0"
edition = "2021"
publish = false

[dependencies]
bytebuffer = "0.2"
