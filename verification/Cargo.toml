[package]
name = "scanner_daemon"
version = "0.1.0"
edition = "2021"
publish = false

[dependencies]
notify = "4.0"
slog = "2"
