[package]
name = "vexide-embedded-graphics"
version = "0.1.0"
edition = "2021"
publish = false

[dependencies]
embedded-graphics-core = "0.4"
vex-sdk = "*"
vexide = "*"
