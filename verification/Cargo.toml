[package]
name = "fingertip"
version = "0.1.0"
edition = "2021"
publish = false

[dependencies]
chrono = "=0.4.45"
serde = { version = "=1.0.229", features = ["derive"] }
serde_json = "=1.0.154"
base64 = "=0.22.1"
anyhow = "=1.0.104"
log = "=0.4.35"
env_logger = "=0.11.11"
rusqlite = { version = "=0.31.0", features = ["bundled"] }
reqwest = { version = "=0.12.28", default-features = false, features = ["json", "multipart", "rustls-tls"] }
tokio = { version = "=1.54.1", features = ["full"] }
async-trait = "=0.1.92"
image = { version = "=0.25.10", default-features = false, features = ["png", "jpeg"] }
imageproc = { version = "=0.25.1", default-features = false }
ab_glyph = "=0.2.32"
qrcode = "=0.14.1"
keyring = { version = "=3.6.3", features = ["apple-native", "windows-native", "linux-native"] }
parking_lot = "=0.12.5"
rdev = "=0.5.3"

[dev-dependencies]
tempfile = "=3.27.0"
