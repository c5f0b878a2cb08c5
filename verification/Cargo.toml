[package]
name = "string_crypter"
version = "0.1.0"
edition = "2021"
publish = false

[dependencies]
base64 = "0.21"
hex = "0.4"
rand = "0.8"
