[package]
name = "lazyjj"
version = "0.1.0"
edition = "2021"
publish = false

[dependencies]
version-compare = "0.2"
shell-words = "1"
ratatui = "0.29"
crossterm = "0.28"
ansi-to-tui = "7"
anyhow = "1"
chrono = "0.4"
clap = { version = "4", features = ["derive", "env"] }
serde = { version = "1", features = ["derive"] }
toml = "0.8"
tui-textarea = "0.7"
notify = "6"
