[package]
name = "pyprotocol"
version = "0.1.0"
edition = "2021"
publish = false

[dependencies]
itertools = "=0.14.0"
num-traits = "=0.2.19"
