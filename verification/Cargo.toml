[package]
name = "event_scanner"
version = "0.1.0"
edition = "2021"
publish = false

[dependencies]
alloy = { version = "1", default-features = false, features = ["std", "eips", "network", "providers", "pubsub", "rpc-client", "rpc-types", "rpc-types-eth"] }
anyhow = "1"
async-trait = "0.1"
backon = { version = "1", default-features = false, features = ["std", "tokio-sleep"] }
thiserror = "2"
tokio = { version = "1", default-features = false, features = ["macros", "rt-multi-thread", "sync", "time"] }
tokio-stream = { version = "0.1", features = ["sync"] }
tracing = "0.1"
