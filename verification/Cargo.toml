[package]
name = "fotos_core"
version = "0.1.0"
edition = "2021"
publish = false

[dependencies]
image = "*"
kamadak-exif = "*"
image_hasher = "*"
walkdir = "*"
rusqlite = { version = "*", features = ["bundled"] }
