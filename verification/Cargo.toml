[package]
name = "yeelib_rs"
version = "0.1.0"
edition = "2021"
publish = false

[dependencies]
fastrand = "2"
httparse = "1"
regex = "1"
serde_json = "1"
