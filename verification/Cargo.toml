[package]
name = "player_core"
version = "0.1.0"
edition = "2021"
publish = false

[dependencies]
log = "0.4"
rodio = "0.21"
serde = { version = "1", features = ["derive"] }
