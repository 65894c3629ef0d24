[package]
name = "statesync"
version = "0.1.0"
edition = "2021"
publish = false

[dependencies]
bus = "*"
rand = "0.8"
