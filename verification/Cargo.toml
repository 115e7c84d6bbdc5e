[package]
name = "crucibles"
version = "0.1.1"
edition = "2021"
publish = false

[dependencies]
futures = "0.1"
