[package]
name = "atomx"
version = "0.1.0"
edition = "2021"
publish = false

[dependencies]
arc-swap = "1"
smallvec = "=1.16.4"
