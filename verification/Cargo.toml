[package]
name = "gmanager_vault"
version = "0.1.0"
edition = "2021"
publish = false

[dependencies]
ring = "*"
hex = "*"
base64 = "*"
chrono = "*"
rusqlite = { version = "*", features = ["bundled"] }
