[package]
name = "rust_jarm"
version = "0.1.0"
edition = "2021"

[dependencies]
hex = "0.4"
rand = "0.8"
sha2 = "0.10"
