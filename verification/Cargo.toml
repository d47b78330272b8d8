[package]
name = "rw_exact_ext"
version = "0.1.0"
edition = "2021"

[dev-dependencies]
num-traits = "0.2"
