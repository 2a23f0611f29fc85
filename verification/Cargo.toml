[package]
name = "plaza-tui"
version = "0.1.0"
edition = "2021"
publish = false

[dependencies]
flacenc = "*"
m3u8-rs = "6"
chrono = { version = "0.4", default-features = false, features = ["clock", "std"] }
dirs = "5"
serde = { version = "1", features = ["derive"] }
serde_json = "1"
toml = "0.8"
anyhow = "1"
clap = { version = "4", features = ["derive"] }
tokio = { version = "1", features = ["full"] }
futures-util = "0.3"
reqwest = { version = "0.12", default-features = false, features = ["blocking", "json", "rustls-tls"] }
symphonia = { version = "0.5", default-features = false, features = ["aac", "mp3", "ogg", "flac"] }
ratatui = "0.29"
crossterm = { version = "0.28", features = ["event-stream"] }
tracing = "0.1"
tracing-subscriber = { version = "0.3", features = ["env-filter"] }

[dev-dependencies]
symphonia = { version = "0.5", default-features = false, features = ["flac"] }
