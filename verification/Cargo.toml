[package]
name = "scp"
version = "0.1.0"
edition = "2021"
publish = false

[dependencies]
minilp = "0.2"
