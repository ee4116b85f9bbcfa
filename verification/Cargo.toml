[package]
name = "linker"
version = "0.1.0"
edition = "2021"
publish = false

[dependencies]
regex = "1"
dirs = "*"
serde = { version = "1", features = ["derive"] }
serde_yaml = "0.9"
tiny_http = "*"
