[package]
name = "tablesoccer"
version = "0.1.0"
edition = "2021"
publish = false

[dependencies]
actix-files = "0.6"
actix-web = { version = "4", features = ["rustls"] }
actix-web-httpauth = "0.8"
chrono = "=0.4.45"
diesel = { version = "2", features = ["postgres", "r2d2", "serde_json"] }
dotenv = "0.15"
env_logger = "0.10"
log = "0.4"
r2d2 = "0.8"
reqwest = { version = "0.11", default-features = false, features = ["blocking", "rustls-tls"] }
rustls = "0.20"
rustls-pemfile = "1"
scraper = "=0.29.0"
serde = { version = "1", features = ["derive"] }
serde_json = "1"
