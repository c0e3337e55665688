[package]
name = "musicplayer_rs"
version = "0.1.0"
edition = "2021"
publish = false

[dependencies]
lofty = "0.25"
thiserror = "=2.0.21"
rusqlite = { version = "=0.41.1", features = ["bundled"] }
async-channel = "=2.5.0"
notify = "=8.2.1"
