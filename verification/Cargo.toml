[package]
name = "adventure_client"
version = "0.1.0"
edition = "2021"
publish = false

[dependencies]
lz-str = "0.1"
reqwest = { version = "0.11", features = ["blocking", "json"] }
serde = { version = "1", features = ["derive"] }
serde_json = "1"
