[package]
name = "qnetsim"
version = "0.1.0"
edition = "2021"
publish = false

[dependencies]
rand = "0.9"
num-complex = "0.4"
ndarray = "0.16"
