[package]
name = "ibc_mocks"
version = "0.1.0"
edition = "2021"
publish = false

[dependencies]
sha2 = "0.10"
parking_lot = "0.12"
tendermint-testgen = "*"
tracing = "0.1"
typed-builder = "*"
derive_more = { version = "*", features = ["from", "try_into"] }
flex-error = "*"
