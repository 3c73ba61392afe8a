[package]
name = "verge_ssh"
version = "0.1.0"
edition = "2021"
publish = false

[dependencies]
aes-gcm = "0.10"
argon2 = "0.5"
base64 = "0.22"
getrandom = "0.3"
chrono = "0.4"
anyhow = "1"
arc-swap = "1"
futures = "0.3"
serde = { version = "1", features = ["derive"] }
serde_json = "1"
serde_yaml_ng = "0.10"
tokio = { version = "1", features = ["full"] }
russh = "0.54"
reqwest = { version = "0.12", default-features = false, features = ["rustls-tls"] }
backon = "1"
scopeguard = "1"
