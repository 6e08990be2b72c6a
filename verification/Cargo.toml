[package]
name = "pokeproxy"
version = "0.1.0"
edition = "2021"
publish = false

[dependencies]
regex = "=1.13.1"
serde_json = "=1.0.154"
rand = "=0.8.8"
serde = { version = "=1.0.229", features = ["derive"] }
futures = "=0.3.34"
reqwest = { version = "=0.12.28", default-features = false, features = ["json", "rustls-tls"] }
ntex = { version = "2", features = ["tokio"] }
ntex-cors = "2"
