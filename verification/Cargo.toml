[package]
name = "rust_av"
version = "0.1.0"
edition = "2021"
publish = false

[dependencies]
num-rational = "*"
bytes = "*"
byte-slice-cast = "*"
thiserror = "*"
num-traits = "*"
