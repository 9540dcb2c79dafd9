[package]
name = "askai"
version = "0.1.0"
edition = "2021"
publish = false

[dependencies]
regex = "1"
serde_json = "1"
serde = { version = "1", features = ["derive"] }
anyhow = "1"
clap = { version = "4", features = ["derive"] }
console = "*"
dialoguer = "*"
dirs = "*"
reqwest = { version = "*", features = ["json"] }
tokio = { version = "1", features = ["full"] }
toml = "*"
