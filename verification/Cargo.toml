[package]
name = "crypto_primitives"
version = "0.1.0"
edition = "2021"
publish = false

[dependencies]
aes-gcm = "0.10"
base64 = "0.22"
hex = "0.4"
rand = "0.8"
sha2 = "0.10"
wasm-bindgen = "0.2"
