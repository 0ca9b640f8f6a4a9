[package]
name = "voice-ambient"
version = "0.1.0"
edition = "2021"
publish = false

[dependencies]
arboard = { version = "=3.4.1", default-features = false }
chrono = { version = "=0.4.45", default-features = false, features = ["clock", "std"] }
clap = { version = "=4.6.7", features = ["derive"] }
cpal = "=0.15.3"
crossbeam-channel = "=0.5.17"
crossterm = "=0.28.1"
hound = "=3.5.1"
libc = "=0.2.191"
ratatui = { version = "=0.29.0", default-features = false, features = ["crossterm"] }
rodio = { version = "=0.20.1", default-features = false }
rubato = "=0.15.0"
rusqlite = "=0.32.1"
