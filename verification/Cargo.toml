[package]
name = "clockface"
version = "0.1.0"
edition = "2021"
publish = false

[dependencies]
anyhow = "1"
chrono = "0.4"
embedded-graphics = "0.8"
embedded-graphics-core = "0.4"
serde = { version = "1", features = ["derive"] }
serde_json = "1"
