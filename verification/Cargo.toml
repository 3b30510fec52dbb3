[package]
name = "kagi"
version = "0.1.0"
edition = "2021"
publish = false

[dependencies]
serde_json = "1"
url = "2"
scraper = "*"
serde = { version = "1", features = ["derive"] }
reqwest = { version = "0.12", default-features = false, features = ["json", "rustls-tls"] }
rmcp = { version = "*", features = ["server", "macros", "transport-io"] }
schemars = "1"
thiserror = "2"
tokio = { version = "1", features = ["macros", "rt-multi-thread", "io-std"] }
