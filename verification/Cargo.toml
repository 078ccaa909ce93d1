[package]
name = "zsclip"
version = "0.1.0"
edition = "2021"
publish = false

[dependencies]
crc32fast = "=1.5.4"
qrcodegen = "=1.8.0"
serde = { version = "=1.0.229", features = ["derive"] }
serde_json = "=1.0.154"
png = "=0.18.1"
image = { version = "=0.25.10", default-features = false, features = ["png", "bmp", "jpeg", "gif", "webp", "tiff", "ico"] }
rusqlite = { version = "=0.41.1", features = ["bundled"] }
base64 = "=0.23.1"
