[package]
name = "x86_msr"
version = "0.1.0"
edition = "2021"
publish = false

[dependencies]
bit_field = "0.10"
bitflags = "1.3"
