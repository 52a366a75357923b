[package]
name = "freelancer_escrow"
version = "0.1.0"
edition = "2021"
publish = false

[dependencies]
soroban-sdk = { version = "21.0.0", features = ["alloc"] }
