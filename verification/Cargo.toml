[package]
name = "cell_spinner"
version = "0.1.0"
edition = "2021"
publish = false

[dependencies]
anyhow = "=1.0.104"
chrono = "=0.4.45"
dashmap = "=5.5.3"
dirs = "=5.0.1"
fugit = "=0.3.9"
log-panics = "=2.1.0"
parking_lot = "=0.12.5"
serde = { version = "=1.0.229", features = ["derive"] }
serde_json = "=1.0.154"
serialport = { version = "=4.10.1", default-features = false }
tracing = "=0.1.44"
tracing-subscriber = "=0.3.23"
trash = "=3.3.1"
walkdir = "=2.5.0"
