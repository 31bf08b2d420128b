[package]
name = "quorum_node"
version = "0.1.0"
edition = "2021"
publish = false

[dependencies]
actix-web = "4"
anyhow = "1"
bip39 = "2"
ed25519-dalek = "2"
futures = "0.3"
hex = "0.4"
rand = "0.8"
reqwest = { version = "0.12", default-features = false, features = ["json"] }
rocksdb = "*"
rsa = "0.9"
serde = { version = "1", features = ["derive"] }
serde_json = "1"
sha2 = "0.10"
tokio = { version = "1", features = ["full"] }
tracing = "0.1"
tracing-subscriber = "0.3"
uuid = { version = "1", features = ["v4"] }
