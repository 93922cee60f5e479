[package]
name = "yuck_premium"
version = "0.1.0"
edition = "2021"
publish = false

[dependencies]
clap = "*"
colored = "*"
dotenv = "*"
indicatif = "*"
lofty = "*"
log = "*"
reqwest = { version = "*", default-features = false, features = ["rustls-tls"] }
rspotify = { version = "*", default-features = false, features = ["cli", "client-reqwest", "reqwest-rustls-tls"] }
tokio = { version = "*", features = ["full"] }
youtube_dl = { version = "*", features = ["tokio"] }
