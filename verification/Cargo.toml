[package]
name = "asyncos"
version = "0.0.1"
edition = "2021"
publish = false

[dependencies]
bit_field = "=0.6.1"
spin = "=0.12.3"
volatile = "=0.2.7"
