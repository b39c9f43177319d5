[package]
name = "blocky_tui"
version = "0.1.0"
edition = "2021"
publish = false

[dependencies]
anyhow = "*"
crossterm = "*"
futures = "*"
human-panic = "*"
ratatui = "*"
reqwest = { version = "*", default-features = false, features = ["json"] }
rustdns = "*"
serde = { version = "*", features = ["derive"] }
tokio = { version = "*", features = ["macros", "rt-multi-thread", "net", "time", "sync"] }
tokio-util = "*"
tracing = "*"
url = "*"
