[package]
name = "silent_payments"
version = "0.1.0"
edition = "2021"
publish = false

[dependencies]
secp256k1 = "0.22"

[dev-dependencies]
secp256k1 = { version = "0.22", features = ["rand-std"] }
