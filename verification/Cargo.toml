[package]
name = "stopwatch"
version = "0.1.0"
edition = "2021"
publish = false

[dependencies]
tokio = { version = "*", features = ["time", "rt", "rt-multi-thread", "macros"] }
crossterm = { version = "*", features = ["event-stream"] }
futures = "*"
ratatui = "*"
tui-big-text = "*"
