[package]
name = "feroxbuster"
version = "0.1.0"
edition = "2021"
publish = false

[dependencies]
console = "*"
serde_json = "*"
anyhow = "1"
reqwest = { version = "*", default-features = false }
