[package]
name = "nca"
version = "0.1.0"
edition = "2021"
publish = false

[dependencies]
aes = "0.8"
xts-mode = "0.5"
serde = "1"
serde_derive = "1"
