[package]
name = "wallet_shell"
version = "0.1.0"
edition = "2021"
publish = false

[dependencies]
anyhow = "1"
async-trait = "0.1"
colored = "2"
structopt = "0.3"
telemetry-subscribers = "*"
tokio = { version = "1", features = ["full"] }
