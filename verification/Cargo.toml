[package]
name = "cleanrs"
version = "0.1.7"
edition = "2021"
publish = false

[dependencies]
anyhow = "1"
clap = { version = "4", features = ["derive"] }
comfy-table = "7"
crossbeam-channel = "0.5"
crossterm = "0.28"
fs2 = "0.4"
humansize = "2"
jwalk = "0.8"
ratatui = "0.29"
rayon = "1"
serde = { version = "1", features = ["derive"] }
serde_json = "1"
toml = "0.8"
trash = "5"
tracing = "0.1"
tracing-subscriber = { version = "0.3", features = ["env-filter"] }
