[package]
name = "gossip_client"
version = "0.1.0"
edition = "2021"
publish = false

[dependencies]
anyhow = "*"
async-trait = "*"
futures = "*"
iroh = "*"
iroh-gossip = "*"
tokio = { version = "*", features = ["full"] }
tokio-util = "*"
tracing = "*"
