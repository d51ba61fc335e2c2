[package]
name = "vaultr"
version = "0.1.0"
edition = "2021"
publish = false

[dependencies]
serde_json = "1"
parse_duration = "*"
http = "*"
