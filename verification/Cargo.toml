[package]
name = "photo_archive"
version = "0.1.0"
edition = "2021"
publish = false

[dependencies]
rusqlite = { version = "*", features = ["bundled"] }
sha2 = "*"
image = { version = "*", default-features = false, features = ["jpeg"] }
kamadak-exif = "*"
chrono = "*"
walkdir = "*"
ctrlc = "*"
serde = { version = "*", features = ["derive"] }
serde_json = "*"
