[package]
name = "mizu"
version = "0.1.0"
edition = "2021"
publish = false

[dependencies]
toml = { version = "0.8", features = ["preserve_order"] }
humansize = "2"
serde = { version = "1", features = ["derive"] }
anyhow = "1"
dirs = "6"
ratatui = "0.28"
crossterm = { version = "0.28", features = ["event-stream"] }
sysinfo = "0.32"
tokio = { version = "1", features = ["rt-multi-thread", "macros", "sync", "time", "signal"] }
