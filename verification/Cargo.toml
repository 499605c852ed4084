[package]
name = "proxyfor_tui"
version = "0.1.0"
edition = "2021"
publish = false

[dependencies]
anyhow = "1"
crossterm = "0.28"
ratatui = { version = "0.28", features = ["unstable-rendered-line-info"] }
tokio = { version = "1", features = ["fs", "macros", "rt", "sync"] }
tui-input = "0.10"
