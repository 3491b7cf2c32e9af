[package]
name = "ghtui"
version = "0.1.0"
edition = "2021"
publish = false

[dependencies]
uuid = { version = "=1.27.0", features = ["v4"] }
tokio = { version = "=1.53.2", features = ["rt-multi-thread", "macros", "sync", "time"] }
crossterm = "=0.29.0"
ratatui = "=0.30.2"
octocrab = "=0.41.2"
serde = { version = "=1.0.229", features = ["derive"] }
serde_json = "=1.0.151"
chrono = "=0.4.45"
clap = { version = "=4.6.7", features = ["derive"] }
open = "=5.4.4"
