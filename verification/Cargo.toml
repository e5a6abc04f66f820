[package]
name = "bloody_falcon"
version = "0.1.0"
edition = "2021"
publish = false

[dependencies]
anyhow = "*"
chrono = "*"
clap = { version = "*", features = ["derive"] }
crossterm = "*"
ratatui = "*"
reqwest = { version = "*", default-features = false, features = ["rustls-tls"] }
serde = { version = "*", features = ["derive"] }
thiserror = "*"
tokio = { version = "*", features = ["rt-multi-thread", "macros", "sync", "time"] }
toml = "*"
tracing = "*"
