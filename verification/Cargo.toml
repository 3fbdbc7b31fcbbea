[package]
name = "atat"
version = "0.1.0"
edition = "2021"
publish = false

[dependencies]
embedded-io-async = "0.6"
fugit = "0.3"
futures = "0.3"
