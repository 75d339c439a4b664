[package]
name = "music_player"
version = "0.1.0"
edition = "2021"
publish = false

[dependencies]
crossterm = "0.25"
lofty = "0.18"
rand = "0.8"
rodio = "0.17"
serde = { version = "1", features = ["derive"] }
toml = "0.7"
tui = "0.19"
