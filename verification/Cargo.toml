[package]
name = "sqsh"
version = "0.1.0"
edition = "2021"
publish = false

[dependencies]
unicode-width = "0.2"
serde = { version = "1", features = ["derive"] }
toml = "0.8"
sqlx = { version = "0.8", default-features = false, features = ["mysql", "runtime-tokio", "chrono", "json"] }
tokio = { version = "1", features = ["full"] }
crossterm = "0.28"
ratatui = "0.29"
skim = "0.10"
arboard = { version = "3", default-features = false }
ssh2 = "0.9"
shellexpand = "3"
clap = { version = "4", features = ["derive"] }
tracing = "0.1"
tracing-subscriber = { version = "0.3", features = ["env-filter"] }
reqwest = { version = "0.12", default-features = false, features = ["json", "rustls-tls"] }
serde_json = "1"
chrono = "0.4"
futures = "0.3"
zeroize = { version = "1", features = ["derive"] }
anyhow = "1"
