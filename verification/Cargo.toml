[package]
name = "baml_gleam"
version = "0.1.0"
edition = "2021"
publish = false

[dependencies]
anyhow = "1"
askama = "0.14"
base64 = "0.21"
serde = { version = "1", features = ["derive"] }
serde_json = "1"
indexmap = "2"
rustler = "0.29"
