[package]
name = "jws_keys"
version = "0.1.0"
edition = "2021"
publish = false

[dependencies]
base64 = "0.13"
openssl = "0.10"
smallvec = "1"
