[package]
name = "impulse"
version = "0.1.0"
edition = "2021"
publish = false

[dependencies]
anyhow = "=1.0.104"
chrono = { version = "=0.4.45", default-features = false, features = ["clock"] }
clap = { version = "=4.6.7", features = ["derive"] }
crossterm = "=0.28.1"
dirs = "=6.0.0"
fuzzy-matcher = "=0.3.7"
image = { version = "=0.25.10", default-features = false, features = ["jpeg", "png"] }
libc = "=0.2.191"
md5 = "=0.7.0"
ratatui = "=0.28.1"
ratatui-image = { version = "=2.0.1", default-features = false }
reqwest = { version = "0.12", default-features = false, features = ["blocking", "json"] }
rodio = { version = "0.20", default-features = false }
rustfm-scrobble = "=1.1.1"
serde = { version = "=1.0.229", features = ["derive"] }
serde_json = "=1.0.154"
symphonia = { version = "=0.5.5", features = ["all"] }
symphonia-adapter-libopus = "=0.2.9"
toml = "=0.8.23"
walkdir = "=2.5.0"
webbrowser = "1"
