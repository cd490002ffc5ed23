[package]
name = "oak_protocol"
version = "0.1.0"
edition = "2021"
publish = false

[dependencies]
stylus-sdk = "=0.6.1"
alloy-primitives = { version = "=0.7.6", default-features = false, features = ["tiny-keccak"] }
ruint = { version = "~1.12.3", default-features = false }
