[package]
name = "audiopipe"
version = "0.1.0"
edition = "2021"
publish = false

[dependencies]
anyhow = "=1.0.104"
async-tungstenite = "=0.35.0"
ffmpeg-next = "=9.0.0"
futures = "=0.3.34"
log = "=0.4.34"
opus = "=0.4.0"
rodio = "=0.22.2"
serde = { version = "=1.0.229", features = ["derive"] }
serde_json = "=1.0.151"
simplelog = "=0.12.2"
smol = "=2.0.2"
symphonia = "=0.5.5"
systemd-journal-logger = "=2.2.2"
ureq = "=3.4.2"
