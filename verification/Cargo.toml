[package]
name = "tx_enricher"
version = "0.1.0"
edition = "2021"
publish = false

[dependencies]
chrono = "0.4"
dotenv = "0.15"
serde_json = "1"
tokio = { version = "1", features = ["macros", "rt-multi-thread"] }
web3 = { version = "0.17", default-features = false, features = ["ws-tls-tokio"] }
