[package]
name = "opal_player"
version = "0.1.0"
edition = "2021"
publish = false

[dependencies]
anyhow = "1"
thiserror = "1"
crossterm = "0.28"
ratatui = "0.29"
symphonia = { version = "0.5", features = ["all"] }
lofty = "0.21"
dirs = "5"
serde = { version = "1", features = ["derive"] }
toml = "0.8"
tokio = { version = "1", features = ["rt", "time"] }
zbus = { version = "3", default-features = false, features = ["tokio"] }
