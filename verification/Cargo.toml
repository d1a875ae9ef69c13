[package]
name = "bitgo_client"
version = "0.1.0"
edition = "2021"
publish = false

[dependencies]
serde_json = "1"
serde = { version = "1", features = ["derive"] }
structopt = "0.3"
async-trait = "0.1"
reqwest = { version = "0.11", default-features = false, features = ["rustls-tls"] }
