[package]
name = "seele_syscalls"
version = "0.1.0"
edition = "2021"
publish = false

[dependencies]
x86_64 = { version = "*", default-features = false, features = ["instructions"] }
spin = "*"
lazy_static = "*"
bitflags = "*"
num_enum = "*"
