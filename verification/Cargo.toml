[package]
name = "zarumet"
version = "0.1.0"
edition = "2021"
publish = false

[dependencies]
unicode-width = "=0.2.3"
toml = "=1.1.8"
regex = "=1.13.1"
serde = { version = "=1.0.229", features = ["derive"] }
clap = { version = "=4.6.7", features = ["derive"] }
crossterm = "=0.29.0"
ratatui = "=0.30.2"
ratatui-image = { version = "=11.1.0", default-features = false, features = ["crossterm"] }
image = { version = "=0.25.10", default-features = false, features = ["png", "jpeg"] }
dirs = "=7.0.0"
log = "=0.4.35"
flexi_logger = "=0.31.10"
color-eyre = "=0.6.5"
tokio = { version = "=1.54.1", features = ["full"] }
mpd_client = "=1.4.1"
futures = "=0.3.34"
