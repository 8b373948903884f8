[package]
name = "amai_continuity"
version = "0.1.0"
edition = "2021"
publish = false

[dependencies]
sha2 = "0.10"
uuid = { version = "1", features = ["v4"] }
serde_json = "1"
anyhow = "1"
