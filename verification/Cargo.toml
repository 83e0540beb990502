[package]
name = "fix_automation"
version = "0.1.0"
edition = "2021"
publish = false

[dependencies]
ratatui = "0.29"
crossterm = "0.28"
serde = { version = "1", features = ["derive"] }
serde_json = "1"
nix = { version = "0.29", features = ["mount", "fs", "signal", "term", "process"] }
libc = "0.2"
