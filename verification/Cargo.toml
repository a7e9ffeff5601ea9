[package]
name = "jump"
version = "0.1.0"
edition = "2021"
publish = false

[dependencies]
serde_json = "1"
walkdir = "2"

[dependencies.zip]
version = "*"
default-features = false
features = ["deflate"]
