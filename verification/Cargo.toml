[package]
name = "mc_afk_tui"
version = "0.1.0"
edition = "2021"
publish = false

[dependencies]
chrono = "0.4"
ratatui = { version = "0.29", default-features = false, features = ["crossterm"] }
crossterm = "0.28"
tokio = { version = "1", features = ["rt", "rt-multi-thread", "macros", "sync", "time"] }
serde = { version = "1", features = ["derive"] }
toml = "0.8"
anyhow = "1"
notify = { version = "6", default-features = false }
libc = "0.2"
azalea = { version = "*", default-features = false }
