[package]
name = "codecat"
version = "0.1.0"
edition = "2021"
publish = false

[dependencies]
anyhow = "1"
aptos-sdk = "*"
clap = { version = "4", features = ["derive"] }
serde_json = "1"
tokio = { version = "1", features = ["macros", "rt-multi-thread"] }
url = "2"

[dev-dependencies]
bcs = "0.1"
hex = "0.4"
