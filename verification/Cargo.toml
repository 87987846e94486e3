[package]
name = "shim_sev"
version = "0.1.0"
edition = "2021"
publish = false

[dependencies]
bit_field = "0.10"
volatile = "0.4"
x86_64 = { version = "0.14", default-features = false, features = ["instructions"] }
