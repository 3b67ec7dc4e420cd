[package]
name = "datanftmint"
version = "0.1.0"
edition = "2021"
publish = false

[dependencies]
multiversx-sc = { version = "=0.66.2", features = ["alloc", "contract-call-legacy", "std"] }
