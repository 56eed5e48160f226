[package]
name = "rvm"
version = "0.1.0"
edition = "2021"
publish = false

[dependencies]
lazy_static = "=1.5.1"
log = "=0.4.35"
spin = "=0.9.9"
x86 = "=0.52.0"
x86_64 = { version = "=0.14.13", default-features = false, features = ["instructions"] }
