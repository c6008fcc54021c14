[package]
name = "auto_updater"
version = "0.1.0"
edition = "2021"
publish = false

[dependencies]
zip = { version = "0.6", default-features = false, features = ["deflate"] }
reqwest = { version = "0.11", default-features = false, features = ["blocking", "json", "rustls-tls"] }
serde = { version = "1", features = ["derive"] }
serde_json = "1"
chrono = "0.4"
libloading = "0.8"
gmod = "*"
