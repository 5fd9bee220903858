[package]
name = "mfa_agent"
version = "0.1.0"
edition = "2021"
publish = false

[dependencies]
aes-gcm = "0.9"
base64 = "0.13"
rand = "0.8"
serde = { version = "1", features = ["derive"] }
serde_json = "1"
serde_yaml = "0.8"
uuid = "1"
log = "0.4"
clap = { version = "3", features = ["derive"] }
tokio = { version = "1", features = ["full"] }
futures = "0.3"
async-std = "1"
bluer = { version = "0.15", features = ["full"] }
gtk4 = "0.4"
libadwaita = "0.1"
keepass = "0.4"
