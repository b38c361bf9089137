[package]
name = "cwitter"
version = "0.1.0"
edition = "2021"
publish = false

[dependencies]
anyhow = "1"
jsonwebtoken = "7"
once_cell = "1"
rocket = "0.5"
rusqlite = "0.25"
serde = { version = "1", features = ["derive"] }
serde_json = { version = "1", features = ["preserve_order"] }
tera = "1"
