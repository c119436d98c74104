[package]
name = "heilo"
version = "0.1.0"
edition = "2021"
publish = false

[dependencies]
aes-gcm = "0.10"
base64 = "0.22"
serde = { version = "1", features = ["derive"] }
serde_json = "1"
anyhow = "1"
reqwest = { version = "0.11", default-features = false, features = ["blocking", "json"] }
crossterm = "0.27"
ratatui = "0.26"
winapi = { version = "0.3", features = ["winuser"] }
