[package]
name = "mcr_settlement"
version = "0.1.0"
edition = "2021"
publish = false

[dependencies]
alloy-contract = { version = "0.1", default-features = false }
alloy-network = "0.1"
alloy-primitives = "0.7"
alloy-provider = { version = "0.1", default-features = false, features = ["reqwest", "ws"] }
alloy-pubsub = "0.1"
alloy-signer-local = "0.1"
alloy-sol-types = { version = "0.7", features = ["json"] }
alloy-transport = "0.1"
alloy-transport-ws = "0.1"
anyhow = "1"
async-channel = "2"
async-trait = "0.1"
thiserror = "1"
tokio = { version = "1", features = ["time"] }
tokio-stream = "0.1"
tracing = "0.1"
