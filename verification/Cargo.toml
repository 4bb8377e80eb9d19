[package]
name = "governance"
version = "0.1.0"
edition = "2021"
publish = false

[dependencies]
serde = { version = "1", features = ["derive"] }
serde_derive = "1"
toml = "*"
rocket = "0.5"
reqwest = { version = "0.12", default-features = false, features = ["blocking"] }
