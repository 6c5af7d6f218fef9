[package]
name = "sav_serialize"
version = "0.1.0"
edition = "2021"
publish = false

[dependencies]
platform-dirs = "*"

[dev-dependencies]
bincode = "1"
