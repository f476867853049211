[package]
name = "wavstream"
version = "0.1.0"
edition = "2021"
publish = false

[dependencies]
anyhow = "*"
hound = "*"
rand = "*"
serde = { version = "*", features = ["derive"] }
serde_yaml = "*"
