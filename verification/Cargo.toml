[package]
name = "cli-music-player"
version = "3.0.0"
edition = "2021"
publish = false

[dependencies]
rand = "0.8"
md-5 = "0.10"
hex = "0.4"
aes-gcm = "0.10"
base64 = "0.22"
pbkdf2 = "0.12"
sha2 = "0.10"
hostname = "0.3"
dirs = "5"
serde = { version = "1", features = ["derive"] }
serde_json = "1"
anyhow = "1"
thiserror = "1"
clap = { version = "4", features = ["derive"] }
tokio = { version = "1", features = ["rt-multi-thread"] }
reqwest = { version = "0.12", default-features = false, features = ["json", "blocking", "rustls-tls"] }
ratatui = "0.29"
crossterm = "0.28"
symphonia = "0.5"
rubato = "0.15"
