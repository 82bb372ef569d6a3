[package]
name = "nokota"
version = "0.1.0"
edition = "2021"
publish = false

[dependencies]
hhmmss = "*"
ratatui = "*"
crossterm = "*"
tokio = { version = "1", features = ["macros", "rt-multi-thread", "sync", "time"] }
rodio = "*"
bluer = { version = "*", features = ["bluetoothd"] }
toml = "*"
serde = { version = "1", features = ["derive"] }
dirs = "*"
audiotags = "*"
mp3-duration = "*"
chrono = "*"
futures = "*"
color-eyre = "*"
