[package]
name = "notifications"
version = "0.1.0"
edition = "2021"
publish = false

[dependencies]
fallible-iterator = "0.1"
