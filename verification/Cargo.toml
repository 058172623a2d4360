[package]
name = "system_monitor"
version = "0.1.0"
edition = "2021"
publish = false

[dependencies]
anyhow = "1"
chrono = "0.4"
clap = { version = "4", features = ["derive"] }
crossterm = "0.27"
env_logger = "0.10"
log = "0.4"
ratatui = "0.26"
serde = { version = "1", features = ["derive"] }
sysinfo = "0.29"
tokio = { version = "1", features = ["macros", "rt-multi-thread", "time"] }
toml = "0.8"
