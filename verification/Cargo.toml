[package]
name = "http_sysstat"
version = "0.1.0"
edition = "2021"
publish = false

[dependencies]
chrono = "0.4"
systemstat = "*"
serde = { version = "1", features = ["derive"] }
serde_json = "1"
serde_urlencoded = "0.7"
actix-web = { version = "4", default-features = false }
actix-rt = "2"
confy = "*"
