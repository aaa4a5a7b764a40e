[package]
name = "oak_io"
version = "0.1.0"
edition = "2021"
publish = false

[dependencies]
hex = "0.4"
either = "1"
env_logger = { version = "0.11", default-features = false }

[dev-dependencies]
proptest = "1"
