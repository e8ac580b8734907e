[package]
name = "bevy_persist"
version = "0.1.0"
edition = "2021"
publish = false

[dependencies]
aes-gcm = "0.10"
argon2 = "0.5"
base64 = "0.22"
bevy = { version = "0.14", default-features = false }
chrono = "0.4"
directories = "5"
inventory = "0.3"
log = "0.4"
ron = "0.8"
serde = { version = "1", features = ["derive"] }
serde_json = "1"
