[package]
name = "sshhub"
version = "0.1.0"
edition = "2021"
publish = false

[dependencies]
anyhow = "=1.0.104"
clap = { version = "=4.6.7", features = ["derive"] }
crossterm = "=0.29.0"
directories = "=6.0.0"
gif = "=0.14.2"
image = { version = "=0.25.10", default-features = false, features = ["gif", "png", "jpeg"] }
log = "=0.4.35"
log4rs = { version = "=1.4.0", default-features = false, features = ["file_appender", "pattern_encoder"] }
rand = "=0.10.3"
ratatui = { version = "=0.30.2", features = ["unstable-backend-writer"] }
russh = "=0.65.0"
serde = { version = "=1.0.229", features = ["derive"] }
tokio = { version = "=1.54.1", features = ["rt-multi-thread", "macros", "sync", "time"] }
toml = "=1.1.8"
