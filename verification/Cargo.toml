[package]
name = "tranrss"
version = "0.1.0"
edition = "2021"
publish = false

[dependencies]
base64 = "=0.22.1"
hex = "=0.4.3"
magic-crypt = "=4.0.1"
md5 = "=0.7.0"
bcrypt = "=0.15.1"
urlencoding = "=2.1.3"
serde = { version = "=1.0.229", features = ["derive"] }
serde_json = "=1.0.154"
scraper = "=0.29.0"
ego-tree = "=0.11.1"
feed-rs = "=2.4.0"
rand = "=0.8.8"
jsonwebtoken = "=9.3.1"
html2text = "=0.17.4"
chrono = "=0.4.45"
toml = "=0.8.23"
clap = { version = "=4.6.7", features = ["derive"] }
tokio = { version = "=1.54.1", features = ["full"] }
axum = { version = "=0.8.9", features = ["multipart"] }
sqlx = { version = "=0.8.6", default-features = false, features = ["runtime-tokio", "sqlite", "macros", "migrate"] }
reqwest = { version = "=0.12.28", default-features = false, features = ["json", "rustls-tls"] }
ratatui = "=0.29.0"
crossterm = "=0.28.1"
open = "=5.4.5"
tracing = "=0.1.44"
apalis = "=0.7.4"
apalis-sql = { version = "=0.7.4", features = ["sqlite"] }
rss = "=2.1.2"
mime_guess = "=2.0.5"
futures = "=0.3.34"
