[package]
name = "catalyst"
version = "0.1.0"
edition = "2021"
publish = false

[dependencies]
alloy = { version = "=1.8.3", default-features = false, features = ["std", "reqwest", "network", "providers", "provider-debug-api"] }
anyhow = "1"
dotenvy = "0.15"
reqwest = { version = "=0.12.28", default-features = false }
tokio = { version = "1", features = ["macros", "rt", "sync", "time"] }
tracing = "0.1"
