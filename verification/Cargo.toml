[package]
name = "serial_stamp"
version = "0.1.0"
edition = "2021"
publish = false

[dependencies]
toml = "*"
uuid = { version = "*", features = ["v4"] }
base64 = "*"
zip = "*"
walkdir = "*"
