[package]
name = "klient"
version = "0.1.0"
edition = "2021"
publish = false

[dependencies]
reqwest = { version = "=0.11.27", default-features = false, features = ["blocking", "cookies", "json", "multipart"] }
serde = "=1.0.229"

[dev-dependencies]
http = "=0.2.12"
