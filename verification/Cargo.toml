[package]
name = "spdmlib"
version = "0.1.0"
edition = "2021"
publish = false

[dependencies]
sha2 = "0.10"
getrandom = "0.2"

[dev-dependencies]
hmac = "0.12"
