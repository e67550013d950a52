[package]
name = "sharky"
version = "0.1.0"
edition = "2021"
publish = false

[dependencies]
derive_more = { version = "1", features = ["from", "try_into"] }
parking_lot = "0.12"
