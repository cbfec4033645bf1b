[package]
name = "chatterpipe"
version = "0.1.0"
edition = "2021"
publish = false

[dependencies]
tiktoken-rs = "*"
serde = { version = "1", features = ["derive"] }
serde_json = "1"
toml = "*"
reqwest = { version = "0.11", features = ["blocking", "json"] }
directories = "*"
colored = "2"
