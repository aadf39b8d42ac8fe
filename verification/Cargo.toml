[package]
name = "minecraft_auth"
version = "0.1.0"
edition = "2021"
publish = false

[dependencies]
anyhow = "1"
regex = "1"
reqwest = { version = "0.11", features = ["blocking", "json", "cookies"] }
serde_json = "1"
structopt = "0.3"
