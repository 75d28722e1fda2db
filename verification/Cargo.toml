[package]
name = "phaselith"
version = "0.1.0"
edition = "2021"
publish = false

[dependencies]
rustfft = "6"
libc = "0.2"
