[package]
name = "security-framework"
version = "0.1.0"
edition = "2021"
publish = false

[dependencies]
core-foundation = { version = "0.10", default-features = false }
core-foundation-sys = { version = "0.8", default-features = false }
libc = "0.2"
