[package]
name = "chess2lichess"
version = "0.1.6"
edition = "2021"
publish = false

[dependencies]
regex = "1"
serde_json = "1"
url = "2"
anyhow = "1"
clap = { version = "4", features = ["derive"] }
reqwest = { version = "0.12", default-features = false, features = ["rustls-tls"] }
tokio = { version = "1", features = ["macros", "rt-multi-thread", "fs", "process", "time", "sync", "io-util"] }
serde = { version = "1", features = ["derive"] }
thiserror = "2"
arboard = { version = "3", default-features = false }
webbrowser = "1"
crossterm = "0.28"
ratatui = "0.29"
