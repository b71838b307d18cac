[package]
name = "nae_glow"
version = "0.1.0"
edition = "2021"
publish = false

[dependencies]
glow = "*"
futures = "0.3"
