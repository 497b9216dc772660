[package]
name = "tca"
version = "0.1.0"
edition = "2021"
publish = false

[dependencies]
heck = "=0.5.0"
anyhow = "=1.0.104"
clap = { version = "=4.6.7", features = ["derive"] }
colored = "=3.1.1"
etcetera = "=0.11.0"
serde = { version = "=1.0.229", features = ["derive"] }
toml = "=1.2.1"
serde_json = "1"
terminal-colorsaurus = "=1.0.3"
ratatui = "=0.30.2"
walkdir = "=2.5.0"
tempfile = "=3.27.0"
gix = { version = "=0.90.0", default-features = false, features = ["sha1", "blocking-network-client"] }
