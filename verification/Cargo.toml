[package]
name = "test_support"
version = "0.1.0"
edition = "2021"
publish = false

[dependencies]
flate2 = "1"
once_cell = "1"
rand = "0.8"
tar = "0.4"
uuid = "1"
