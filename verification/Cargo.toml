[package]
name = "jihaz"
version = "0.1.0"
edition = "2021"
publish = false

[dependencies]
time = "=0.3.55"
chrono = "=0.4.45"
serde = { version = "=1.0.229", features = ["derive"] }
serde_json = "=1.0.154"
bincode = "=1.3.3"
thiserror = "=1.0.69"
directories = "=5.0.1"
plist = "=1.10.3"
anyhow = "=1.0.104"
parking_lot = "=0.12.5"
resvg = "=0.41.0"
usvg = "=0.41.0"
ico = "=0.3.0"
tauri-icns = "=0.1.0"
scraper = "*"
