[package]
name = "rkhtop"
version = "0.1.0"
edition = "2021"
publish = false

[dependencies]
crossterm = "*"
directories = "*"
nvml-wrapper = "*"
ratatui = "*"
serde = { version = "1", features = ["derive"] }
sysinfo = "*"
tokio = { version = "1", features = ["macros", "rt-multi-thread"] }
toml = "*"
