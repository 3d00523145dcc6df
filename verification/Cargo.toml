[package]
name = "gpt_relay"
version = "0.1.0"
edition = "2021"
publish = false

[dependencies]
discord = "*"
reqwest = { version = "*", features = ["blocking", "json"] }
serde = { version = "*", features = ["derive"] }
serde_json = "*"
