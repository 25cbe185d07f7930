[package]
name = "unified_convert"
version = "0.1.0"
edition = "2021"
publish = false

[dependencies]
anyhow = "1"
bson = "2"
regex = "1"
serde = { version = "1", features = ["derive"] }
serde_yaml = "0.9"
