[package]
name = "brc20"
version = "0.1.0"
edition = "2021"
publish = false

[dependencies]
anyhow = "*"
async-shutdown = "*"
async-trait = "*"
bitcoincore-rpc = "*"
dotenvy = "*"
lazy_static = "*"
reqwest = { version = "*", default-features = false, features = ["json"] }
serde = { version = "*", features = ["derive"] }
serde_json = "*"
thiserror = "*"
tokio = { version = "*", features = ["full"] }
