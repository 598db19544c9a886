[package]
name = "brush-shell"
version = "0.1.0"
edition = "2021"
publish = false

[dependencies]
brush-core = "=0.3.5"
brush-interactive = { version = "=0.2.22", features = ["basic", "minimal", "reedline"] }
clap = { version = "=4.6.7", features = ["derive"] }
crossterm = "=0.28.1"
human-panic = "=2.0.8"
tokio = { version = "=1.54.1", features = ["rt", "rt-multi-thread", "sync"] }
tracing = "=0.1.44"
tracing-subscriber = "0.3"
