[package]
name = "hackrfone"
version = "0.1.0"
edition = "2021"
publish = false

[dependencies]
rusb = "0.9"
num-complex = "0.4"
