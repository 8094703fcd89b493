[package]
name = "u2fhid"
version = "0.1.0"
edition = "2021"
publish = false

[dependencies]
runloop = "0.1"
base64 = "0.13"
rust-crypto = "0.2"
