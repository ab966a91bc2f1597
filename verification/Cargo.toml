[package]
name = "music_player"
version = "0.1.0"
edition = "2021"
publish = false

[dependencies]
rodio = "0.20"
rusqlite = { version = "0.32", features = ["bundled"] }
chrono = "0.4"
lofty = "0.22"
walkdir = "2"
serde = { version = "1", features = ["derive"] }
