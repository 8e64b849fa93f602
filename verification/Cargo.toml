[package]
name = "ario"
version = "0.1.0"
edition = "2021"
publish = false

[dependencies]
chrono = "0.4"
unicode-segmentation = "1"
unicode-width = "0.2"
rand = "*"
regex = "1"
base64 = "0.22"
serde = { version = "1", features = ["derive"] }
serde_json = "1"
anyhow = "1"
tokio = { version = "1", features = ["rt", "macros", "sync", "time", "process", "signal", "net"] }
axum = { version = "0.8", features = ["multipart"] }
tower-http = { version = "0.6", features = ["cors"] }
reqwest = { version = "0.12", default-features = false, features = ["blocking", "json"] }
rusqlite = { version = "*", features = ["chrono"] }
ratatui = "*"
crossterm = "*"
directories = "*"
toml = "*"
arboard = { version = "3", default-features = false }
catppuccin = "2"
