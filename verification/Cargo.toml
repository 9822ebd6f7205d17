[package]
name = "gittui"
version = "0.1.0"
edition = "2021"
publish = false

[dependencies]
anyhow = "1"
chrono = "0.4"
crossterm = "0.28"
dirs = "5"
fuzzy-matcher = "0.3"
git2 = { version = "0.19", default-features = false }
ratatui = "0.29"
serde = { version = "1", features = ["derive"] }
toml = "0.8"
