[package]
name = "zencodec"
version = "0.1.0"
edition = "2021"
publish = false

[dependencies]
zenpixels = { version = "*", features = ["icc"] }
enough = "*"
almost-enough = "*"
imgref = "*"
rgb = "*"
whereat = "*"
