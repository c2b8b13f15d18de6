[package]
name = "klumo"
version = "0.1.0"
edition = "2021"
publish = false

[dependencies]
anyhow = "1"
boa_engine = "*"
clap = { version = "4", features = ["derive"] }
dirs = "*"
reqwest = { version = "0.12", default-features = false, features = ["blocking", "json", "rustls-tls"] }
serde = { version = "1", features = ["derive"] }
serde_json = "1"
sha2 = "0.10"
