[package]
name = "teensy40"
version = "0.1.0"
edition = "2021"
publish = false

[dependencies]
bit_field = "*"
volatile = "0.2"
