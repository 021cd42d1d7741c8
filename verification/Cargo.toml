[package]
name = "deflater"
version = "0.1.0"
edition = "2021"
publish = false

[dependencies]
libdeflater = "*"
flate2 = "*"
crc32fast = "*"
